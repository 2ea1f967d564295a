//! The library-wide laws, stated and proved over the same spec functions the
//! public contracts use: the register-0 sink, the write/read round trip and
//! the mirror-aliasing invariant of the memory map, the explicit failure of
//! unmapped addresses, and the 32-bit-extended shift equivalence.

use vstd::prelude::*;

use crate::cpu::{Cpu, Exception, reg32, reg64, reg_val, regs_after_write, with_low_32, with_low_64};
use crate::ee_arithmetic::{dsll32_rel, dsll_rel, dsra32_rel, dsra_rel};
use crate::memory::{
    AddressLocation, MemoryContents, MemoryError, location_offset, overwrite, read_spec, region_of,
    translate_spec, with_region, write_spec,
};

verus! {

/// Register 0 is a sink: a write at any width leaves the register file
/// unchanged, and a subsequent read at any width returns zero.
pub proof fn lemma_register_zero_reads_zero(cpu: Cpu, value: u128, value_64: u64, value_32: u32)
    requires
        cpu.wf(),
    ensures
        regs_after_write(cpu.ee_registers@, 0, value) == cpu.ee_registers@,
        regs_after_write(cpu.ee_registers@, 0, with_low_64(reg_val(cpu, 0), value_64))
            == cpu.ee_registers@,
        regs_after_write(cpu.ee_registers@, 0, with_low_32(reg_val(cpu, 0), value_32))
            == cpu.ee_registers@,
        reg_val(cpu, 0) == 0,
        reg64(cpu, 0) == 0,
        reg32(cpu, 0) == 0,
{
}

/// Writing bytes through one virtual address and reading them back through
/// any virtual address that translates to the same region and offset — the
/// same address, or any mirror of it — returns exactly the written bytes.
pub proof fn lemma_mirror_write_read(
    m: MemoryContents,
    address_written: u32,
    address_read: u32,
    bytes: Seq<u8>,
)
    requires
        translate_spec(address_written) == translate_spec(address_read),
        write_spec(m, address_written, bytes) is Ok,
    ensures
        read_spec(write_spec(m, address_written, bytes).unwrap(), address_read, bytes.len())
            == Ok::<Seq<u8>, MemoryError>(bytes),
{
    let location = translate_spec(address_written).unwrap();
    let region = region_of(m, location);
    let offset = location_offset(location) as int;
    let written = write_spec(m, address_written, bytes).unwrap();
    assert(region_of(written, location) == overwrite(region, offset, bytes));
    assert(read_spec(written, address_read, bytes.len()) matches Ok(back) && back =~= bytes);
}

/// Writing `bytes` to a virtual address and immediately reading
/// `bytes.len()` bytes back from the same address returns exactly the
/// written bytes, for every declared region and offset.
pub proof fn lemma_write_then_read(m: MemoryContents, address: u32, bytes: Seq<u8>)
    requires
        write_spec(m, address, bytes) is Ok,
    ensures
        read_spec(write_spec(m, address, bytes).unwrap(), address, bytes.len()) == Ok::<
            Seq<u8>,
            MemoryError,
        >(bytes),
{
    lemma_mirror_write_read(m, address, address, bytes);
}

/// The three virtual windows onto main memory all translate to the same
/// region and offset: the primary range, and its two mirror bases.
pub proof fn lemma_main_memory_mirrors(offset: u32)
    requires
        offset < 0x2000000,
    ensures
        translate_spec(offset) == Some(AddressLocation::MainEEMemory(offset)),
        translate_spec((0x20000000 + offset) as u32) == Some(
            AddressLocation::MainEEMemory(offset),
        ),
        offset >= 0x100000 ==> translate_spec((0x30000000 + offset) as u32) == Some(
            AddressLocation::MainEEMemory(offset),
        ),
{
}

/// The three virtual windows onto the boot ROM all translate to the same
/// region and offset.
pub proof fn lemma_bios_mirrors(offset: u32)
    requires
        offset < 0x400000,
    ensures
        translate_spec((0x1FC00000 + offset) as u32) == Some(AddressLocation::BIOSMemory(offset)),
        translate_spec((0x9FC00000 + offset) as u32) == Some(AddressLocation::BIOSMemory(offset)),
        translate_spec((0xBFC00000 + offset) as u32) == Some(AddressLocation::BIOSMemory(offset)),
{
}

/// An address outside every declared virtual range is an explicit error from
/// both reads and writes — never a value, and (the functions being verified
/// total) never a panic.
pub proof fn lemma_unmapped_address(
    m: MemoryContents,
    address: u32,
    length: nat,
    bytes: Seq<u8>,
)
    requires
        translate_spec(address) is None,
    ensures
        read_spec(m, address, length) == Err::<Seq<u8>, MemoryError>(MemoryError::UnmappedAddress),
        write_spec(m, address, bytes) == Err::<MemoryContents, MemoryError>(
            MemoryError::UnmappedAddress,
        ),
{
}

/// A fixed 32-bit-extended shift with encoded amount `sa` has exactly the
/// semantics of the non-extended form applied with amount `sa + 32`, for
/// both the left and the arithmetic-right family.
pub proof fn lemma_extended_shift_adds_32(
    pre: Cpu,
    post: Cpu,
    r: Result<(), Exception>,
    rd: u8,
    rt: u8,
    sa: u8,
)
    requires
        sa < 32,
    ensures
        dsll32_rel(pre, post, r, rd, rt, sa) <==> dsll_rel(pre, post, r, rd, rt, (sa + 32) as u8),
        dsra32_rel(pre, post, r, rd, rt, sa) <==> dsra_rel(pre, post, r, rd, rt, (sa + 32) as u8),
{
    assert(((sa + 32) as u8) & 0x3f == (sa & 0x1f) + 32) by (bit_vector)
        requires
            sa < 32,
    ;
}

} // verus!
