//! Emulation core for the 64-bit MIPS-derived "Emotion Engine" processor:
//! a bit-accurate instruction decoder, a 128-bit register file with 32- and
//! 64-bit views, the arithmetic instruction semantics, and a segmented
//! virtual-address memory subsystem with mirrored regions.

pub mod cpu;
pub mod ee_arithmetic;
pub mod instruction_parser;
pub mod instructions;
pub mod laws;
pub mod memory;
