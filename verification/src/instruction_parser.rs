//! The instruction decoder. Classification inspects the top 6 bits of the
//! word: all zero selects the Special family (true opcode in the low 6
//! bits), one selects the Regimm family (true opcode in bits 20-16), and
//! anything else is the Normal family (opcode in the top 6 bits directly).
//! Operand fields sit at fixed positions; an opcode value unmapped within
//! its family decodes to the no-operation sentinel.

#![allow(non_snake_case)]

use vstd::prelude::*;

use crate::instructions::{Instruction, nop, nop_spec, operand_regs_wf};

verus! {

pub open spec fn spec_rs(word: u32) -> u8 {
    ((word >> 21) & 0x1f) as u8
}

pub open spec fn spec_rt(word: u32) -> u8 {
    ((word >> 16) & 0x1f) as u8
}

pub open spec fn spec_rd(word: u32) -> u8 {
    ((word >> 11) & 0x1f) as u8
}

pub open spec fn spec_sa(word: u32) -> u8 {
    ((word >> 6) & 0x1f) as u8
}

pub open spec fn spec_imm_u(word: u32) -> u16 {
    (word & 0xffff) as u16
}

/// The 16-bit immediate reinterpreted as signed, for the instructions that
/// sign-extend it.
pub open spec fn spec_imm_s(word: u32) -> i16 {
    (word & 0xffff) as i16
}

pub open spec fn spec_jump_target(word: u32) -> u32 {
    word & 0x03ffffff
}

pub open spec fn spec_code_20(word: u32) -> u32 {
    (word >> 6) & 0xfffff
}

pub open spec fn spec_code_10(word: u32) -> u16 {
    ((word >> 6) & 0x3ff) as u16
}

/// Top 6 bits all zero: the Special encoding family.
pub open spec fn spec_is_special(word: u32) -> bool {
    word >> 26 == 0
}

/// Top 6 bits equal to one: the Regimm encoding family.
pub open spec fn spec_is_regimm(word: u32) -> bool {
    word >> 26 == 1
}

pub open spec fn spec_special_opcode(word: u32) -> u8 {
    (word & 0x3f) as u8
}

pub open spec fn spec_regimm_opcode(word: u32) -> u8 {
    ((word >> 16) & 0x1f) as u8
}

pub open spec fn spec_normal_opcode(word: u32) -> u8 {
    ((word >> 26) & 0x3f) as u8
}

proof fn lemma_field_bounds(word: u32)
    by (bit_vector)
    ensures
        spec_rs(word) < 32,
        spec_rt(word) < 32,
        spec_rd(word) < 32,
        spec_sa(word) < 32,
{
}

fn field_rs(word: u32) -> (r: u8)
    ensures
        r == spec_rs(word),
        r < 32,
{
    proof {
        lemma_field_bounds(word);
    }
    ((word >> 21) & 0x1f) as u8
}

fn field_rt(word: u32) -> (r: u8)
    ensures
        r == spec_rt(word),
        r < 32,
{
    proof {
        lemma_field_bounds(word);
    }
    ((word >> 16) & 0x1f) as u8
}

fn field_rd(word: u32) -> (r: u8)
    ensures
        r == spec_rd(word),
        r < 32,
{
    proof {
        lemma_field_bounds(word);
    }
    ((word >> 11) & 0x1f) as u8
}

fn field_sa(word: u32) -> (r: u8)
    ensures
        r == spec_sa(word),
        r < 32,
{
    proof {
        lemma_field_bounds(word);
    }
    ((word >> 6) & 0x1f) as u8
}

fn field_imm_u(word: u32) -> (r: u16)
    ensures
        r == spec_imm_u(word),
{
    (word & 0xffff) as u16
}

fn field_imm_s(word: u32) -> (r: i16)
    ensures
        r == spec_imm_s(word),
{
    (word & 0xffff) as i16
}

fn field_jump_target(word: u32) -> (r: u32)
    ensures
        r == spec_jump_target(word),
{
    word & 0x03ffffff
}

fn field_code_20(word: u32) -> (r: u32)
    ensures
        r == spec_code_20(word),
{
    (word >> 6) & 0xfffff
}

fn field_code_10(word: u32) -> (r: u16)
    ensures
        r == spec_code_10(word),
{
    ((word >> 6) & 0x3ff) as u16
}

#[derive(PartialEq, Eq, Structural)]
enum InstructionType {
    Special { opcode: u8 },
    Regimm { opcode: u8 },
    Normal { opcode: u8 },
}

spec fn instruction_type_spec(word: u32) -> InstructionType {
    if spec_is_special(word) {
        InstructionType::Special { opcode: spec_special_opcode(word) }
    } else if spec_is_regimm(word) {
        InstructionType::Regimm { opcode: spec_regimm_opcode(word) }
    } else {
        InstructionType::Normal { opcode: spec_normal_opcode(word) }
    }
}

fn is_special(asm_instruction: &u32) -> (r: bool)
    ensures
        r == spec_is_special(*asm_instruction),
{
    *asm_instruction >> 26 == 0
}

fn is_regim(asm_instruction: &u32) -> (r: bool)
    ensures
        r == spec_is_regimm(*asm_instruction),
{
    *asm_instruction >> 26 == 1
}

fn get_special_opcode(asm_instruction: &u32) -> (r: u8)
    ensures
        r == spec_special_opcode(*asm_instruction),
{
    (*asm_instruction & 0x3f) as u8
}

fn get_regimm_opcode(asm_instruction: &u32) -> (r: u8)
    ensures
        r == spec_regimm_opcode(*asm_instruction),
{
    ((*asm_instruction >> 16) & 0x1f) as u8
}

fn get_normal_opcode(asm_instruction: &u32) -> (r: u8)
    ensures
        r == spec_normal_opcode(*asm_instruction),
{
    ((*asm_instruction >> 26) & 0x3f) as u8
}

fn get_instruction_type(asm_instruction: &u32) -> (r: InstructionType)
    ensures
        r == instruction_type_spec(*asm_instruction),
{
    if is_special(asm_instruction) {
        InstructionType::Special { opcode: get_special_opcode(asm_instruction) }
    } else if is_regim(asm_instruction) {
        InstructionType::Regimm { opcode: get_regimm_opcode(asm_instruction) }
    } else {
        InstructionType::Normal { opcode: get_normal_opcode(asm_instruction) }
    }
}

fn parse_ADD(asm_instruction: &u32) -> (r: Instruction)
    ensures
        (r == Instruction::ADD { rd: spec_rd(*asm_instruction), rs: spec_rs(*asm_instruction), rt: spec_rt(*asm_instruction) }),
{
    Instruction::ADD { rd: field_rd(*asm_instruction), rs: field_rs(*asm_instruction), rt: field_rt(*asm_instruction) }
}

fn parse_ADDI(asm_instruction: &u32) -> (r: Instruction)
    ensures
        (r == Instruction::ADDI { rt: spec_rt(*asm_instruction), rs: spec_rs(*asm_instruction), imm: spec_imm_s(*asm_instruction) }),
{
    Instruction::ADDI { rt: field_rt(*asm_instruction), rs: field_rs(*asm_instruction), imm: field_imm_s(*asm_instruction) }
}

fn parse_ADDU(asm_instruction: &u32) -> (r: Instruction)
    ensures
        (r == Instruction::ADDU { rd: spec_rd(*asm_instruction), rs: spec_rs(*asm_instruction), rt: spec_rt(*asm_instruction) }),
{
    Instruction::ADDU { rd: field_rd(*asm_instruction), rs: field_rs(*asm_instruction), rt: field_rt(*asm_instruction) }
}

fn parse_ADDUI(asm_instruction: &u32) -> (r: Instruction)
    ensures
        (r == Instruction::ADDUI { rt: spec_rt(*asm_instruction), rs: spec_rs(*asm_instruction), imm: spec_imm_s(*asm_instruction) }),
{
    Instruction::ADDUI { rt: field_rt(*asm_instruction), rs: field_rs(*asm_instruction), imm: field_imm_s(*asm_instruction) }
}

fn parse_AND(asm_instruction: &u32) -> (r: Instruction)
    ensures
        (r == Instruction::AND { rd: spec_rd(*asm_instruction), rs: spec_rs(*asm_instruction), rt: spec_rt(*asm_instruction) }),
{
    Instruction::AND { rd: field_rd(*asm_instruction), rs: field_rs(*asm_instruction), rt: field_rt(*asm_instruction) }
}

fn parse_ANDI(asm_instruction: &u32) -> (r: Instruction)
    ensures
        (r == Instruction::ANDI { rt: spec_rt(*asm_instruction), rs: spec_rs(*asm_instruction), imm: spec_imm_u(*asm_instruction) }),
{
    Instruction::ANDI { rt: field_rt(*asm_instruction), rs: field_rs(*asm_instruction), imm: field_imm_u(*asm_instruction) }
}

fn parse_BEQ(asm_instruction: &u32) -> (r: Instruction)
    ensures
        (r == Instruction::BEQ { rs: spec_rs(*asm_instruction), rt: spec_rt(*asm_instruction), off: spec_imm_u(*asm_instruction) }),
{
    Instruction::BEQ { rs: field_rs(*asm_instruction), rt: field_rt(*asm_instruction), off: field_imm_u(*asm_instruction) }
}

fn parse_BEQL(asm_instruction: &u32) -> (r: Instruction)
    ensures
        (r == Instruction::BEQL { rs: spec_rs(*asm_instruction), rt: spec_rt(*asm_instruction), off: spec_imm_u(*asm_instruction) }),
{
    Instruction::BEQL { rs: field_rs(*asm_instruction), rt: field_rt(*asm_instruction), off: field_imm_u(*asm_instruction) }
}

fn parse_BGEZ(asm_instruction: &u32) -> (r: Instruction)
    ensures
        (r == Instruction::BGEZ { rs: spec_rs(*asm_instruction), off: spec_imm_u(*asm_instruction) }),
{
    Instruction::BGEZ { rs: field_rs(*asm_instruction), off: field_imm_u(*asm_instruction) }
}

fn parse_BGEZAL(asm_instruction: &u32) -> (r: Instruction)
    ensures
        (r == Instruction::BGEZAL { rs: spec_rs(*asm_instruction), off: spec_imm_u(*asm_instruction) }),
{
    Instruction::BGEZAL { rs: field_rs(*asm_instruction), off: field_imm_u(*asm_instruction) }
}

fn parse_BGEZALL(asm_instruction: &u32) -> (r: Instruction)
    ensures
        (r == Instruction::BGEZALL { rs: spec_rs(*asm_instruction), off: spec_imm_u(*asm_instruction) }),
{
    Instruction::BGEZALL { rs: field_rs(*asm_instruction), off: field_imm_u(*asm_instruction) }
}

fn parse_BGEZL(asm_instruction: &u32) -> (r: Instruction)
    ensures
        (r == Instruction::BGEZL { rs: spec_rs(*asm_instruction), off: spec_imm_u(*asm_instruction) }),
{
    Instruction::BGEZL { rs: field_rs(*asm_instruction), off: field_imm_u(*asm_instruction) }
}

fn parse_BGTZ(asm_instruction: &u32) -> (r: Instruction)
    ensures
        (r == Instruction::BGTZ { rs: spec_rs(*asm_instruction), off: spec_imm_u(*asm_instruction) }),
{
    Instruction::BGTZ { rs: field_rs(*asm_instruction), off: field_imm_u(*asm_instruction) }
}

fn parse_BGTZL(asm_instruction: &u32) -> (r: Instruction)
    ensures
        (r == Instruction::BGTZL { rs: spec_rs(*asm_instruction), off: spec_imm_u(*asm_instruction) }),
{
    Instruction::BGTZL { rs: field_rs(*asm_instruction), off: field_imm_u(*asm_instruction) }
}

fn parse_BLEZ(asm_instruction: &u32) -> (r: Instruction)
    ensures
        (r == Instruction::BLEZ { rs: spec_rs(*asm_instruction), off: spec_imm_u(*asm_instruction) }),
{
    Instruction::BLEZ { rs: field_rs(*asm_instruction), off: field_imm_u(*asm_instruction) }
}

fn parse_BLEZL(asm_instruction: &u32) -> (r: Instruction)
    ensures
        (r == Instruction::BLEZL { rs: spec_rs(*asm_instruction), off: spec_imm_u(*asm_instruction) }),
{
    Instruction::BLEZL { rs: field_rs(*asm_instruction), off: field_imm_u(*asm_instruction) }
}

fn parse_BLTZ(asm_instruction: &u32) -> (r: Instruction)
    ensures
        (r == Instruction::BLTZ { rs: spec_rs(*asm_instruction), off: spec_imm_u(*asm_instruction) }),
{
    Instruction::BLTZ { rs: field_rs(*asm_instruction), off: field_imm_u(*asm_instruction) }
}

fn parse_BLTZAL(asm_instruction: &u32) -> (r: Instruction)
    ensures
        (r == Instruction::BLTZAL { rs: spec_rs(*asm_instruction), off: spec_imm_u(*asm_instruction) }),
{
    Instruction::BLTZAL { rs: field_rs(*asm_instruction), off: field_imm_u(*asm_instruction) }
}

fn parse_BLTZALL(asm_instruction: &u32) -> (r: Instruction)
    ensures
        (r == Instruction::BLTZALL { rs: spec_rs(*asm_instruction), off: spec_imm_u(*asm_instruction) }),
{
    Instruction::BLTZALL { rs: field_rs(*asm_instruction), off: field_imm_u(*asm_instruction) }
}

fn parse_BLTZL(asm_instruction: &u32) -> (r: Instruction)
    ensures
        (r == Instruction::BLTZL { rs: spec_rs(*asm_instruction), off: spec_imm_u(*asm_instruction) }),
{
    Instruction::BLTZL { rs: field_rs(*asm_instruction), off: field_imm_u(*asm_instruction) }
}

fn parse_BNE(asm_instruction: &u32) -> (r: Instruction)
    ensures
        (r == Instruction::BNE { rs: spec_rs(*asm_instruction), rt: spec_rt(*asm_instruction), off: spec_imm_u(*asm_instruction) }),
{
    Instruction::BNE { rs: field_rs(*asm_instruction), rt: field_rt(*asm_instruction), off: field_imm_u(*asm_instruction) }
}

fn parse_BNEL(asm_instruction: &u32) -> (r: Instruction)
    ensures
        (r == Instruction::BNEL { rs: spec_rs(*asm_instruction), rt: spec_rt(*asm_instruction), off: spec_imm_u(*asm_instruction) }),
{
    Instruction::BNEL { rs: field_rs(*asm_instruction), rt: field_rt(*asm_instruction), off: field_imm_u(*asm_instruction) }
}

fn parse_BREAK(asm_instruction: &u32) -> (r: Instruction)
    ensures
        (r == Instruction::BREAK { code: spec_code_20(*asm_instruction) }),
{
    Instruction::BREAK { code: field_code_20(*asm_instruction) }
}

fn parse_DADD(asm_instruction: &u32) -> (r: Instruction)
    ensures
        (r == Instruction::DADD { rd: spec_rd(*asm_instruction), rs: spec_rs(*asm_instruction), rt: spec_rt(*asm_instruction) }),
{
    Instruction::DADD { rd: field_rd(*asm_instruction), rs: field_rs(*asm_instruction), rt: field_rt(*asm_instruction) }
}

fn parse_DADDI(asm_instruction: &u32) -> (r: Instruction)
    ensures
        (r == Instruction::DADDI { rt: spec_rt(*asm_instruction), rs: spec_rs(*asm_instruction), imm: spec_imm_s(*asm_instruction) }),
{
    Instruction::DADDI { rt: field_rt(*asm_instruction), rs: field_rs(*asm_instruction), imm: field_imm_s(*asm_instruction) }
}

fn parse_DADDIU(asm_instruction: &u32) -> (r: Instruction)
    ensures
        (r == Instruction::DADDIU { rt: spec_rt(*asm_instruction), rs: spec_rs(*asm_instruction), imm: spec_imm_s(*asm_instruction) }),
{
    Instruction::DADDIU { rt: field_rt(*asm_instruction), rs: field_rs(*asm_instruction), imm: field_imm_s(*asm_instruction) }
}

fn parse_DADDU(asm_instruction: &u32) -> (r: Instruction)
    ensures
        (r == Instruction::DADDU { rd: spec_rd(*asm_instruction), rs: spec_rs(*asm_instruction), rt: spec_rt(*asm_instruction) }),
{
    Instruction::DADDU { rd: field_rd(*asm_instruction), rs: field_rs(*asm_instruction), rt: field_rt(*asm_instruction) }
}

fn parse_DIV(asm_instruction: &u32) -> (r: Instruction)
    ensures
        (r == Instruction::DIV { rs: spec_rs(*asm_instruction), rt: spec_rt(*asm_instruction) }),
{
    Instruction::DIV { rs: field_rs(*asm_instruction), rt: field_rt(*asm_instruction) }
}

fn parse_DIVU(asm_instruction: &u32) -> (r: Instruction)
    ensures
        (r == Instruction::DIVU { rs: spec_rs(*asm_instruction), rt: spec_rt(*asm_instruction) }),
{
    Instruction::DIVU { rs: field_rs(*asm_instruction), rt: field_rt(*asm_instruction) }
}

fn parse_DSLL(asm_instruction: &u32) -> (r: Instruction)
    ensures
        (r == Instruction::DSLL { rt: spec_rt(*asm_instruction), rd: spec_rd(*asm_instruction), sa: spec_sa(*asm_instruction) }),
{
    Instruction::DSLL { rt: field_rt(*asm_instruction), rd: field_rd(*asm_instruction), sa: field_sa(*asm_instruction) }
}

fn parse_DSLL32(asm_instruction: &u32) -> (r: Instruction)
    ensures
        (r == Instruction::DSLL32 { rt: spec_rt(*asm_instruction), rd: spec_rd(*asm_instruction), sa: spec_sa(*asm_instruction) }),
{
    Instruction::DSLL32 { rt: field_rt(*asm_instruction), rd: field_rd(*asm_instruction), sa: field_sa(*asm_instruction) }
}

fn parse_DSLLV(asm_instruction: &u32) -> (r: Instruction)
    ensures
        (r == Instruction::DSLLV { rd: spec_rd(*asm_instruction), rt: spec_rt(*asm_instruction), rs: spec_rs(*asm_instruction) }),
{
    Instruction::DSLLV { rd: field_rd(*asm_instruction), rt: field_rt(*asm_instruction), rs: field_rs(*asm_instruction) }
}

fn parse_DSRA(asm_instruction: &u32) -> (r: Instruction)
    ensures
        (r == Instruction::DSRA { rt: spec_rt(*asm_instruction), rd: spec_rd(*asm_instruction), sa: spec_sa(*asm_instruction) }),
{
    Instruction::DSRA { rt: field_rt(*asm_instruction), rd: field_rd(*asm_instruction), sa: field_sa(*asm_instruction) }
}

fn parse_DSRA32(asm_instruction: &u32) -> (r: Instruction)
    ensures
        (r == Instruction::DSRA32 { rt: spec_rt(*asm_instruction), rd: spec_rd(*asm_instruction), sa: spec_sa(*asm_instruction) }),
{
    Instruction::DSRA32 { rt: field_rt(*asm_instruction), rd: field_rd(*asm_instruction), sa: field_sa(*asm_instruction) }
}

fn parse_DSRAV(asm_instruction: &u32) -> (r: Instruction)
    ensures
        (r == Instruction::DSRAV { rd: spec_rd(*asm_instruction), rt: spec_rt(*asm_instruction), rs: spec_rs(*asm_instruction) }),
{
    Instruction::DSRAV { rd: field_rd(*asm_instruction), rt: field_rt(*asm_instruction), rs: field_rs(*asm_instruction) }
}

fn parse_DSRL(asm_instruction: &u32) -> (r: Instruction)
    ensures
        (r == Instruction::DSRL { rt: spec_rt(*asm_instruction), rd: spec_rd(*asm_instruction), sa: spec_sa(*asm_instruction) }),
{
    Instruction::DSRL { rt: field_rt(*asm_instruction), rd: field_rd(*asm_instruction), sa: field_sa(*asm_instruction) }
}

fn parse_DSRL32(asm_instruction: &u32) -> (r: Instruction)
    ensures
        (r == Instruction::DSRL32 { rt: spec_rt(*asm_instruction), rd: spec_rd(*asm_instruction), sa: spec_sa(*asm_instruction) }),
{
    Instruction::DSRL32 { rt: field_rt(*asm_instruction), rd: field_rd(*asm_instruction), sa: field_sa(*asm_instruction) }
}

fn parse_DSRLV(asm_instruction: &u32) -> (r: Instruction)
    ensures
        (r == Instruction::DSRLV { rd: spec_rd(*asm_instruction), rt: spec_rt(*asm_instruction), rs: spec_rs(*asm_instruction) }),
{
    Instruction::DSRLV { rd: field_rd(*asm_instruction), rt: field_rt(*asm_instruction), rs: field_rs(*asm_instruction) }
}

fn parse_DSUB(asm_instruction: &u32) -> (r: Instruction)
    ensures
        (r == Instruction::DSUB { rd: spec_rd(*asm_instruction), rs: spec_rs(*asm_instruction), rt: spec_rt(*asm_instruction) }),
{
    Instruction::DSUB { rd: field_rd(*asm_instruction), rs: field_rs(*asm_instruction), rt: field_rt(*asm_instruction) }
}

fn parse_DSUBU(asm_instruction: &u32) -> (r: Instruction)
    ensures
        (r == Instruction::DSUBU { rd: spec_rd(*asm_instruction), rs: spec_rs(*asm_instruction), rt: spec_rt(*asm_instruction) }),
{
    Instruction::DSUBU { rd: field_rd(*asm_instruction), rs: field_rs(*asm_instruction), rt: field_rt(*asm_instruction) }
}

fn parse_J(asm_instruction: &u32) -> (r: Instruction)
    ensures
        (r == Instruction::J { off: spec_jump_target(*asm_instruction) }),
{
    Instruction::J { off: field_jump_target(*asm_instruction) }
}

fn parse_JAL(asm_instruction: &u32) -> (r: Instruction)
    ensures
        (r == Instruction::JAL { off: spec_jump_target(*asm_instruction) }),
{
    Instruction::JAL { off: field_jump_target(*asm_instruction) }
}

fn parse_JALR(asm_instruction: &u32) -> (r: Instruction)
    ensures
        (r == Instruction::JALR { rd: spec_rd(*asm_instruction), rs: spec_rs(*asm_instruction) }),
{
    Instruction::JALR { rd: field_rd(*asm_instruction), rs: field_rs(*asm_instruction) }
}

fn parse_JR(asm_instruction: &u32) -> (r: Instruction)
    ensures
        (r == Instruction::JR { rs: spec_rs(*asm_instruction) }),
{
    Instruction::JR { rs: field_rs(*asm_instruction) }
}

fn parse_LB(asm_instruction: &u32) -> (r: Instruction)
    ensures
        (r == Instruction::LB { rt: spec_rt(*asm_instruction), off: spec_imm_u(*asm_instruction), base: spec_rs(*asm_instruction) }),
{
    Instruction::LB { rt: field_rt(*asm_instruction), off: field_imm_u(*asm_instruction), base: field_rs(*asm_instruction) }
}

fn parse_LBU(asm_instruction: &u32) -> (r: Instruction)
    ensures
        (r == Instruction::LBU { rt: spec_rt(*asm_instruction), off: spec_imm_u(*asm_instruction), base: spec_rs(*asm_instruction) }),
{
    Instruction::LBU { rt: field_rt(*asm_instruction), off: field_imm_u(*asm_instruction), base: field_rs(*asm_instruction) }
}

fn parse_LD(asm_instruction: &u32) -> (r: Instruction)
    ensures
        (r == Instruction::LD { rt: spec_rt(*asm_instruction), off: spec_imm_u(*asm_instruction), base: spec_rs(*asm_instruction) }),
{
    Instruction::LD { rt: field_rt(*asm_instruction), off: field_imm_u(*asm_instruction), base: field_rs(*asm_instruction) }
}

fn parse_LDL(asm_instruction: &u32) -> (r: Instruction)
    ensures
        (r == Instruction::LDL { rt: spec_rt(*asm_instruction), off: spec_imm_u(*asm_instruction), base: spec_rs(*asm_instruction) }),
{
    Instruction::LDL { rt: field_rt(*asm_instruction), off: field_imm_u(*asm_instruction), base: field_rs(*asm_instruction) }
}

fn parse_LDR(asm_instruction: &u32) -> (r: Instruction)
    ensures
        (r == Instruction::LDR { rt: spec_rt(*asm_instruction), off: spec_imm_u(*asm_instruction), base: spec_rs(*asm_instruction) }),
{
    Instruction::LDR { rt: field_rt(*asm_instruction), off: field_imm_u(*asm_instruction), base: field_rs(*asm_instruction) }
}

fn parse_LH(asm_instruction: &u32) -> (r: Instruction)
    ensures
        (r == Instruction::LH { rt: spec_rt(*asm_instruction), off: spec_imm_u(*asm_instruction), base: spec_rs(*asm_instruction) }),
{
    Instruction::LH { rt: field_rt(*asm_instruction), off: field_imm_u(*asm_instruction), base: field_rs(*asm_instruction) }
}

fn parse_LHU(asm_instruction: &u32) -> (r: Instruction)
    ensures
        (r == Instruction::LHU { rt: spec_rt(*asm_instruction), off: spec_imm_u(*asm_instruction), base: spec_rs(*asm_instruction) }),
{
    Instruction::LHU { rt: field_rt(*asm_instruction), off: field_imm_u(*asm_instruction), base: field_rs(*asm_instruction) }
}

fn parse_LUI(asm_instruction: &u32) -> (r: Instruction)
    ensures
        (r == Instruction::LUI { rt: spec_rt(*asm_instruction), imm: spec_imm_u(*asm_instruction) }),
{
    Instruction::LUI { rt: field_rt(*asm_instruction), imm: field_imm_u(*asm_instruction) }
}

fn parse_LW(asm_instruction: &u32) -> (r: Instruction)
    ensures
        (r == Instruction::LW { rt: spec_rt(*asm_instruction), off: spec_imm_u(*asm_instruction), base: spec_rs(*asm_instruction) }),
{
    Instruction::LW { rt: field_rt(*asm_instruction), off: field_imm_u(*asm_instruction), base: field_rs(*asm_instruction) }
}

fn parse_LWL(asm_instruction: &u32) -> (r: Instruction)
    ensures
        (r == Instruction::LWL { rt: spec_rt(*asm_instruction), off: spec_imm_u(*asm_instruction), base: spec_rs(*asm_instruction) }),
{
    Instruction::LWL { rt: field_rt(*asm_instruction), off: field_imm_u(*asm_instruction), base: field_rs(*asm_instruction) }
}

fn parse_LWR(asm_instruction: &u32) -> (r: Instruction)
    ensures
        (r == Instruction::LWR { rt: spec_rt(*asm_instruction), off: spec_imm_u(*asm_instruction), base: spec_rs(*asm_instruction) }),
{
    Instruction::LWR { rt: field_rt(*asm_instruction), off: field_imm_u(*asm_instruction), base: field_rs(*asm_instruction) }
}

fn parse_LWU(asm_instruction: &u32) -> (r: Instruction)
    ensures
        (r == Instruction::LWU { rt: spec_rt(*asm_instruction), off: spec_imm_u(*asm_instruction), base: spec_rs(*asm_instruction) }),
{
    Instruction::LWU { rt: field_rt(*asm_instruction), off: field_imm_u(*asm_instruction), base: field_rs(*asm_instruction) }
}

fn parse_MFHI(asm_instruction: &u32) -> (r: Instruction)
    ensures
        (r == Instruction::MFHI { rd: spec_rd(*asm_instruction) }),
{
    Instruction::MFHI { rd: field_rd(*asm_instruction) }
}

fn parse_MFLO(asm_instruction: &u32) -> (r: Instruction)
    ensures
        (r == Instruction::MFLO { rd: spec_rd(*asm_instruction) }),
{
    Instruction::MFLO { rd: field_rd(*asm_instruction) }
}

fn parse_MOVN(asm_instruction: &u32) -> (r: Instruction)
    ensures
        (r == Instruction::MOVN { rd: spec_rd(*asm_instruction), rs: spec_rs(*asm_instruction), rt: spec_rt(*asm_instruction) }),
{
    Instruction::MOVN { rd: field_rd(*asm_instruction), rs: field_rs(*asm_instruction), rt: field_rt(*asm_instruction) }
}

fn parse_MOVZ(asm_instruction: &u32) -> (r: Instruction)
    ensures
        (r == Instruction::MOVZ { rd: spec_rd(*asm_instruction), rs: spec_rs(*asm_instruction), rt: spec_rt(*asm_instruction) }),
{
    Instruction::MOVZ { rd: field_rd(*asm_instruction), rs: field_rs(*asm_instruction), rt: field_rt(*asm_instruction) }
}

fn parse_MTHI(asm_instruction: &u32) -> (r: Instruction)
    ensures
        (r == Instruction::MTHI { rs: spec_rs(*asm_instruction) }),
{
    Instruction::MTHI { rs: field_rs(*asm_instruction) }
}

fn parse_MTLO(asm_instruction: &u32) -> (r: Instruction)
    ensures
        (r == Instruction::MTLO { rs: spec_rs(*asm_instruction) }),
{
    Instruction::MTLO { rs: field_rs(*asm_instruction) }
}

fn parse_MULT(asm_instruction: &u32) -> (r: Instruction)
    ensures
        (r == Instruction::MULT { rs: spec_rs(*asm_instruction), rt: spec_rt(*asm_instruction) }),
{
    Instruction::MULT { rs: field_rs(*asm_instruction), rt: field_rt(*asm_instruction) }
}

fn parse_MULTU(asm_instruction: &u32) -> (r: Instruction)
    ensures
        (r == Instruction::MULTU { rs: spec_rs(*asm_instruction), rt: spec_rt(*asm_instruction) }),
{
    Instruction::MULTU { rs: field_rs(*asm_instruction), rt: field_rt(*asm_instruction) }
}

fn parse_NOR(asm_instruction: &u32) -> (r: Instruction)
    ensures
        (r == Instruction::NOR { rd: spec_rd(*asm_instruction), rs: spec_rs(*asm_instruction), rt: spec_rt(*asm_instruction) }),
{
    Instruction::NOR { rd: field_rd(*asm_instruction), rs: field_rs(*asm_instruction), rt: field_rt(*asm_instruction) }
}

fn parse_OR(asm_instruction: &u32) -> (r: Instruction)
    ensures
        (r == Instruction::OR { rd: spec_rd(*asm_instruction), rs: spec_rs(*asm_instruction), rt: spec_rt(*asm_instruction) }),
{
    Instruction::OR { rd: field_rd(*asm_instruction), rs: field_rs(*asm_instruction), rt: field_rt(*asm_instruction) }
}

fn parse_ORI(asm_instruction: &u32) -> (r: Instruction)
    ensures
        (r == Instruction::ORI { rt: spec_rt(*asm_instruction), rs: spec_rs(*asm_instruction), imm: spec_imm_u(*asm_instruction) }),
{
    Instruction::ORI { rt: field_rt(*asm_instruction), rs: field_rs(*asm_instruction), imm: field_imm_u(*asm_instruction) }
}

fn parse_PREF(asm_instruction: &u32) -> (r: Instruction)
    ensures
        (r == Instruction::PREF { hint: spec_rt(*asm_instruction), off: spec_imm_u(*asm_instruction), base: spec_rs(*asm_instruction) }),
{
    Instruction::PREF { hint: field_rt(*asm_instruction), off: field_imm_u(*asm_instruction), base: field_rs(*asm_instruction) }
}

fn parse_SB(asm_instruction: &u32) -> (r: Instruction)
    ensures
        (r == Instruction::SB { rt: spec_rt(*asm_instruction), off: spec_imm_u(*asm_instruction), base: spec_rs(*asm_instruction) }),
{
    Instruction::SB { rt: field_rt(*asm_instruction), off: field_imm_u(*asm_instruction), base: field_rs(*asm_instruction) }
}

fn parse_SD(asm_instruction: &u32) -> (r: Instruction)
    ensures
        (r == Instruction::SD { rt: spec_rt(*asm_instruction), off: spec_imm_u(*asm_instruction), base: spec_rs(*asm_instruction) }),
{
    Instruction::SD { rt: field_rt(*asm_instruction), off: field_imm_u(*asm_instruction), base: field_rs(*asm_instruction) }
}

fn parse_SDL(asm_instruction: &u32) -> (r: Instruction)
    ensures
        (r == Instruction::SDL { rt: spec_rt(*asm_instruction), off: spec_imm_u(*asm_instruction), base: spec_rs(*asm_instruction) }),
{
    Instruction::SDL { rt: field_rt(*asm_instruction), off: field_imm_u(*asm_instruction), base: field_rs(*asm_instruction) }
}

fn parse_SDR(asm_instruction: &u32) -> (r: Instruction)
    ensures
        (r == Instruction::SDR { rt: spec_rt(*asm_instruction), off: spec_imm_u(*asm_instruction), base: spec_rs(*asm_instruction) }),
{
    Instruction::SDR { rt: field_rt(*asm_instruction), off: field_imm_u(*asm_instruction), base: field_rs(*asm_instruction) }
}

fn parse_SH(asm_instruction: &u32) -> (r: Instruction)
    ensures
        (r == Instruction::SH { rt: spec_rt(*asm_instruction), off: spec_imm_u(*asm_instruction), base: spec_rs(*asm_instruction) }),
{
    Instruction::SH { rt: field_rt(*asm_instruction), off: field_imm_u(*asm_instruction), base: field_rs(*asm_instruction) }
}

fn parse_SLL(asm_instruction: &u32) -> (r: Instruction)
    ensures
        (r == Instruction::SLL { rt: spec_rt(*asm_instruction), rd: spec_rd(*asm_instruction), sa: spec_sa(*asm_instruction) }),
{
    Instruction::SLL { rt: field_rt(*asm_instruction), rd: field_rd(*asm_instruction), sa: field_sa(*asm_instruction) }
}

fn parse_SLLV(asm_instruction: &u32) -> (r: Instruction)
    ensures
        (r == Instruction::SLLV { rd: spec_rd(*asm_instruction), rt: spec_rt(*asm_instruction), rs: spec_rs(*asm_instruction) }),
{
    Instruction::SLLV { rd: field_rd(*asm_instruction), rt: field_rt(*asm_instruction), rs: field_rs(*asm_instruction) }
}

fn parse_SLT(asm_instruction: &u32) -> (r: Instruction)
    ensures
        (r == Instruction::SLT { rd: spec_rd(*asm_instruction), rt: spec_rt(*asm_instruction), rs: spec_rs(*asm_instruction) }),
{
    Instruction::SLT { rd: field_rd(*asm_instruction), rt: field_rt(*asm_instruction), rs: field_rs(*asm_instruction) }
}

fn parse_SLTI(asm_instruction: &u32) -> (r: Instruction)
    ensures
        (r == Instruction::SLTI { rt: spec_rt(*asm_instruction), rs: spec_rs(*asm_instruction), imm: spec_imm_s(*asm_instruction) }),
{
    Instruction::SLTI { rt: field_rt(*asm_instruction), rs: field_rs(*asm_instruction), imm: field_imm_s(*asm_instruction) }
}

fn parse_SLTIU(asm_instruction: &u32) -> (r: Instruction)
    ensures
        (r == Instruction::SLTIU { rt: spec_rt(*asm_instruction), rs: spec_rs(*asm_instruction), imm: spec_imm_u(*asm_instruction) }),
{
    Instruction::SLTIU { rt: field_rt(*asm_instruction), rs: field_rs(*asm_instruction), imm: field_imm_u(*asm_instruction) }
}

fn parse_SLTU(asm_instruction: &u32) -> (r: Instruction)
    ensures
        (r == Instruction::SLTU { rd: spec_rd(*asm_instruction), rt: spec_rt(*asm_instruction), rs: spec_rs(*asm_instruction) }),
{
    Instruction::SLTU { rd: field_rd(*asm_instruction), rt: field_rt(*asm_instruction), rs: field_rs(*asm_instruction) }
}

fn parse_SRA(asm_instruction: &u32) -> (r: Instruction)
    ensures
        (r == Instruction::SRA { rt: spec_rt(*asm_instruction), rd: spec_rd(*asm_instruction), sa: spec_sa(*asm_instruction) }),
{
    Instruction::SRA { rt: field_rt(*asm_instruction), rd: field_rd(*asm_instruction), sa: field_sa(*asm_instruction) }
}

fn parse_SRAV(asm_instruction: &u32) -> (r: Instruction)
    ensures
        (r == Instruction::SRAV { rd: spec_rd(*asm_instruction), rt: spec_rt(*asm_instruction), rs: spec_rs(*asm_instruction) }),
{
    Instruction::SRAV { rd: field_rd(*asm_instruction), rt: field_rt(*asm_instruction), rs: field_rs(*asm_instruction) }
}

fn parse_SRL(asm_instruction: &u32) -> (r: Instruction)
    ensures
        (r == Instruction::SRL { rt: spec_rt(*asm_instruction), rd: spec_rd(*asm_instruction), sa: spec_sa(*asm_instruction) }),
{
    Instruction::SRL { rt: field_rt(*asm_instruction), rd: field_rd(*asm_instruction), sa: field_sa(*asm_instruction) }
}

fn parse_SRLV(asm_instruction: &u32) -> (r: Instruction)
    ensures
        (r == Instruction::SRLV { rd: spec_rd(*asm_instruction), rt: spec_rt(*asm_instruction), rs: spec_rs(*asm_instruction) }),
{
    Instruction::SRLV { rd: field_rd(*asm_instruction), rt: field_rt(*asm_instruction), rs: field_rs(*asm_instruction) }
}

fn parse_SUB(asm_instruction: &u32) -> (r: Instruction)
    ensures
        (r == Instruction::SUB { rd: spec_rd(*asm_instruction), rt: spec_rt(*asm_instruction), rs: spec_rs(*asm_instruction) }),
{
    Instruction::SUB { rd: field_rd(*asm_instruction), rt: field_rt(*asm_instruction), rs: field_rs(*asm_instruction) }
}

fn parse_SUBU(asm_instruction: &u32) -> (r: Instruction)
    ensures
        (r == Instruction::SUBU { rd: spec_rd(*asm_instruction), rt: spec_rt(*asm_instruction), rs: spec_rs(*asm_instruction) }),
{
    Instruction::SUBU { rd: field_rd(*asm_instruction), rt: field_rt(*asm_instruction), rs: field_rs(*asm_instruction) }
}

fn parse_SW(asm_instruction: &u32) -> (r: Instruction)
    ensures
        (r == Instruction::SW { rt: spec_rt(*asm_instruction), off: spec_imm_u(*asm_instruction), base: spec_rs(*asm_instruction) }),
{
    Instruction::SW { rt: field_rt(*asm_instruction), off: field_imm_u(*asm_instruction), base: field_rs(*asm_instruction) }
}

fn parse_SWL(asm_instruction: &u32) -> (r: Instruction)
    ensures
        (r == Instruction::SWL { rt: spec_rt(*asm_instruction), off: spec_imm_u(*asm_instruction), base: spec_rs(*asm_instruction) }),
{
    Instruction::SWL { rt: field_rt(*asm_instruction), off: field_imm_u(*asm_instruction), base: field_rs(*asm_instruction) }
}

fn parse_SWR(asm_instruction: &u32) -> (r: Instruction)
    ensures
        (r == Instruction::SWR { rt: spec_rt(*asm_instruction), off: spec_imm_u(*asm_instruction), base: spec_rs(*asm_instruction) }),
{
    Instruction::SWR { rt: field_rt(*asm_instruction), off: field_imm_u(*asm_instruction), base: field_rs(*asm_instruction) }
}

fn parse_SYNC(asm_instruction: &u32) -> (r: Instruction)
    ensures
        (r == Instruction::SYNC { stype: spec_sa(*asm_instruction) }),
{
    Instruction::SYNC { stype: field_sa(*asm_instruction) }
}

fn parse_SYSCALL(asm_instruction: &u32) -> (r: Instruction)
    ensures
        (r == Instruction::SYSCALL { code: spec_code_20(*asm_instruction) }),
{
    Instruction::SYSCALL { code: field_code_20(*asm_instruction) }
}

fn parse_TEQ(asm_instruction: &u32) -> (r: Instruction)
    ensures
        (r == Instruction::TEQ { rs: spec_rs(*asm_instruction), rt: spec_rt(*asm_instruction), code: spec_code_10(*asm_instruction) }),
{
    Instruction::TEQ { rs: field_rs(*asm_instruction), rt: field_rt(*asm_instruction), code: field_code_10(*asm_instruction) }
}

fn parse_TEQI(asm_instruction: &u32) -> (r: Instruction)
    ensures
        (r == Instruction::TEQI { rs: spec_rs(*asm_instruction), imm: spec_imm_s(*asm_instruction) }),
{
    Instruction::TEQI { rs: field_rs(*asm_instruction), imm: field_imm_s(*asm_instruction) }
}

fn parse_TGE(asm_instruction: &u32) -> (r: Instruction)
    ensures
        (r == Instruction::TGE { rs: spec_rs(*asm_instruction), rt: spec_rt(*asm_instruction), code: spec_code_10(*asm_instruction) }),
{
    Instruction::TGE { rs: field_rs(*asm_instruction), rt: field_rt(*asm_instruction), code: field_code_10(*asm_instruction) }
}

fn parse_TGEI(asm_instruction: &u32) -> (r: Instruction)
    ensures
        (r == Instruction::TGEI { rs: spec_rs(*asm_instruction), imm: spec_imm_s(*asm_instruction) }),
{
    Instruction::TGEI { rs: field_rs(*asm_instruction), imm: field_imm_s(*asm_instruction) }
}

fn parse_TGEIU(asm_instruction: &u32) -> (r: Instruction)
    ensures
        (r == Instruction::TGEIU { rs: spec_rs(*asm_instruction), imm: spec_imm_s(*asm_instruction) }),
{
    Instruction::TGEIU { rs: field_rs(*asm_instruction), imm: field_imm_s(*asm_instruction) }
}

fn parse_TGEU(asm_instruction: &u32) -> (r: Instruction)
    ensures
        (r == Instruction::TGEU { rs: spec_rs(*asm_instruction), rt: spec_rt(*asm_instruction), code: spec_code_10(*asm_instruction) }),
{
    Instruction::TGEU { rs: field_rs(*asm_instruction), rt: field_rt(*asm_instruction), code: field_code_10(*asm_instruction) }
}

fn parse_TLT(asm_instruction: &u32) -> (r: Instruction)
    ensures
        (r == Instruction::TLT { rs: spec_rs(*asm_instruction), rt: spec_rt(*asm_instruction), code: spec_code_10(*asm_instruction) }),
{
    Instruction::TLT { rs: field_rs(*asm_instruction), rt: field_rt(*asm_instruction), code: field_code_10(*asm_instruction) }
}

fn parse_TLTI(asm_instruction: &u32) -> (r: Instruction)
    ensures
        (r == Instruction::TLTI { rs: spec_rs(*asm_instruction), imm: spec_imm_s(*asm_instruction) }),
{
    Instruction::TLTI { rs: field_rs(*asm_instruction), imm: field_imm_s(*asm_instruction) }
}

fn parse_TLTIU(asm_instruction: &u32) -> (r: Instruction)
    ensures
        (r == Instruction::TLTIU { rs: spec_rs(*asm_instruction), imm: spec_imm_s(*asm_instruction) }),
{
    Instruction::TLTIU { rs: field_rs(*asm_instruction), imm: field_imm_s(*asm_instruction) }
}

fn parse_TLTU(asm_instruction: &u32) -> (r: Instruction)
    ensures
        (r == Instruction::TLTU { rs: spec_rs(*asm_instruction), rt: spec_rt(*asm_instruction), code: spec_code_10(*asm_instruction) }),
{
    Instruction::TLTU { rs: field_rs(*asm_instruction), rt: field_rt(*asm_instruction), code: field_code_10(*asm_instruction) }
}

fn parse_TNE(asm_instruction: &u32) -> (r: Instruction)
    ensures
        (r == Instruction::TNE { rs: spec_rs(*asm_instruction), rt: spec_rt(*asm_instruction), code: spec_code_10(*asm_instruction) }),
{
    Instruction::TNE { rs: field_rs(*asm_instruction), rt: field_rt(*asm_instruction), code: field_code_10(*asm_instruction) }
}

fn parse_TNEI(asm_instruction: &u32) -> (r: Instruction)
    ensures
        (r == Instruction::TNEI { rs: spec_rs(*asm_instruction), imm: spec_imm_s(*asm_instruction) }),
{
    Instruction::TNEI { rs: field_rs(*asm_instruction), imm: field_imm_s(*asm_instruction) }
}

fn parse_XOR(asm_instruction: &u32) -> (r: Instruction)
    ensures
        (r == Instruction::XOR { rd: spec_rd(*asm_instruction), rs: spec_rs(*asm_instruction), rt: spec_rt(*asm_instruction) }),
{
    Instruction::XOR { rd: field_rd(*asm_instruction), rs: field_rs(*asm_instruction), rt: field_rt(*asm_instruction) }
}

fn parse_XORI(asm_instruction: &u32) -> (r: Instruction)
    ensures
        (r == Instruction::XORI { rt: spec_rt(*asm_instruction), rs: spec_rs(*asm_instruction), imm: spec_imm_u(*asm_instruction) }),
{
    Instruction::XORI { rt: field_rt(*asm_instruction), rs: field_rs(*asm_instruction), imm: field_imm_u(*asm_instruction) }
}

/// The whole decode table as one mathematical function: family
/// classification, then the per-opcode field extraction. An opcode value
/// unmapped within its family yields the no-operation sentinel.
pub open spec fn decode_spec(word: u32) -> Instruction {
    if spec_is_special(word) {
        match spec_special_opcode(word) {
            0 => Instruction::SLL { rt: spec_rt(word), rd: spec_rd(word), sa: spec_sa(word) },
            2 => Instruction::SRL { rt: spec_rt(word), rd: spec_rd(word), sa: spec_sa(word) },
            3 => Instruction::SRA { rt: spec_rt(word), rd: spec_rd(word), sa: spec_sa(word) },
            4 => Instruction::SLLV { rd: spec_rd(word), rt: spec_rt(word), rs: spec_rs(word) },
            6 => Instruction::SRLV { rd: spec_rd(word), rt: spec_rt(word), rs: spec_rs(word) },
            7 => Instruction::SRAV { rd: spec_rd(word), rt: spec_rt(word), rs: spec_rs(word) },
            8 => Instruction::JR { rs: spec_rs(word) },
            9 => Instruction::JALR { rd: spec_rd(word), rs: spec_rs(word) },
            10 => Instruction::MOVZ { rd: spec_rd(word), rs: spec_rs(word), rt: spec_rt(word) },
            11 => Instruction::MOVN { rd: spec_rd(word), rs: spec_rs(word), rt: spec_rt(word) },
            12 => Instruction::SYSCALL { code: spec_code_20(word) },
            15 => Instruction::SYNC { stype: spec_sa(word) },
            16 => Instruction::MFHI { rd: spec_rd(word) },
            17 => Instruction::MTHI { rs: spec_rs(word) },
            18 => Instruction::MFLO { rd: spec_rd(word) },
            19 => Instruction::MTLO { rs: spec_rs(word) },
            20 => Instruction::DSLLV { rd: spec_rd(word), rt: spec_rt(word), rs: spec_rs(word) },
            22 => Instruction::DSRLV { rd: spec_rd(word), rt: spec_rt(word), rs: spec_rs(word) },
            23 => Instruction::DSRAV { rd: spec_rd(word), rt: spec_rt(word), rs: spec_rs(word) },
            24 => Instruction::MULT { rs: spec_rs(word), rt: spec_rt(word) },
            25 => Instruction::MULTU { rs: spec_rs(word), rt: spec_rt(word) },
            26 => Instruction::DIV { rs: spec_rs(word), rt: spec_rt(word) },
            27 => Instruction::DIVU { rs: spec_rs(word), rt: spec_rt(word) },
            32 => Instruction::ADD { rd: spec_rd(word), rs: spec_rs(word), rt: spec_rt(word) },
            33 => Instruction::ADDU { rd: spec_rd(word), rs: spec_rs(word), rt: spec_rt(word) },
            34 => Instruction::SUB { rd: spec_rd(word), rt: spec_rt(word), rs: spec_rs(word) },
            35 => Instruction::SUBU { rd: spec_rd(word), rt: spec_rt(word), rs: spec_rs(word) },
            36 => Instruction::AND { rd: spec_rd(word), rs: spec_rs(word), rt: spec_rt(word) },
            37 => Instruction::OR { rd: spec_rd(word), rs: spec_rs(word), rt: spec_rt(word) },
            38 => Instruction::XOR { rd: spec_rd(word), rs: spec_rs(word), rt: spec_rt(word) },
            39 => Instruction::NOR { rd: spec_rd(word), rs: spec_rs(word), rt: spec_rt(word) },
            42 => Instruction::SLT { rd: spec_rd(word), rt: spec_rt(word), rs: spec_rs(word) },
            43 => Instruction::SLTU { rd: spec_rd(word), rt: spec_rt(word), rs: spec_rs(word) },
            44 => Instruction::DADD { rd: spec_rd(word), rs: spec_rs(word), rt: spec_rt(word) },
            45 => Instruction::DADDU { rd: spec_rd(word), rs: spec_rs(word), rt: spec_rt(word) },
            46 => Instruction::DSUB { rd: spec_rd(word), rs: spec_rs(word), rt: spec_rt(word) },
            47 => Instruction::DSUBU { rd: spec_rd(word), rs: spec_rs(word), rt: spec_rt(word) },
            48 => Instruction::TGE { rs: spec_rs(word), rt: spec_rt(word), code: spec_code_10(word) },
            49 => Instruction::TGEU { rs: spec_rs(word), rt: spec_rt(word), code: spec_code_10(word) },
            50 => Instruction::TLT { rs: spec_rs(word), rt: spec_rt(word), code: spec_code_10(word) },
            51 => Instruction::TLTU { rs: spec_rs(word), rt: spec_rt(word), code: spec_code_10(word) },
            52 => Instruction::TEQ { rs: spec_rs(word), rt: spec_rt(word), code: spec_code_10(word) },
            54 => Instruction::TNE { rs: spec_rs(word), rt: spec_rt(word), code: spec_code_10(word) },
            56 => Instruction::DSLL { rt: spec_rt(word), rd: spec_rd(word), sa: spec_sa(word) },
            58 => Instruction::DSRL { rt: spec_rt(word), rd: spec_rd(word), sa: spec_sa(word) },
            59 => Instruction::DSRA { rt: spec_rt(word), rd: spec_rd(word), sa: spec_sa(word) },
            60 => Instruction::DSLL32 { rt: spec_rt(word), rd: spec_rd(word), sa: spec_sa(word) },
            62 => Instruction::DSRL32 { rt: spec_rt(word), rd: spec_rd(word), sa: spec_sa(word) },
            63 => Instruction::DSRA32 { rt: spec_rt(word), rd: spec_rd(word), sa: spec_sa(word) },
            _ => nop_spec(),
        }
    } else if spec_is_regimm(word) {
        match spec_regimm_opcode(word) {
            0 => Instruction::BLTZ { rs: spec_rs(word), off: spec_imm_u(word) },
            1 => Instruction::BGEZ { rs: spec_rs(word), off: spec_imm_u(word) },
            2 => Instruction::BLTZL { rs: spec_rs(word), off: spec_imm_u(word) },
            3 => Instruction::BGEZL { rs: spec_rs(word), off: spec_imm_u(word) },
            8 => Instruction::TGEI { rs: spec_rs(word), imm: spec_imm_s(word) },
            9 => Instruction::TGEIU { rs: spec_rs(word), imm: spec_imm_s(word) },
            10 => Instruction::TLTI { rs: spec_rs(word), imm: spec_imm_s(word) },
            11 => Instruction::TLTIU { rs: spec_rs(word), imm: spec_imm_s(word) },
            12 => Instruction::TEQI { rs: spec_rs(word), imm: spec_imm_s(word) },
            13 => Instruction::BREAK { code: spec_code_20(word) },
            14 => Instruction::TNEI { rs: spec_rs(word), imm: spec_imm_s(word) },
            16 => Instruction::BLTZAL { rs: spec_rs(word), off: spec_imm_u(word) },
            17 => Instruction::BGEZAL { rs: spec_rs(word), off: spec_imm_u(word) },
            18 => Instruction::BLTZALL { rs: spec_rs(word), off: spec_imm_u(word) },
            19 => Instruction::BGEZALL { rs: spec_rs(word), off: spec_imm_u(word) },
            _ => nop_spec(),
        }
    } else {
        match spec_normal_opcode(word) {
            2 => Instruction::J { off: spec_jump_target(word) },
            3 => Instruction::JAL { off: spec_jump_target(word) },
            4 => Instruction::BEQ { rs: spec_rs(word), rt: spec_rt(word), off: spec_imm_u(word) },
            5 => Instruction::BNE { rs: spec_rs(word), rt: spec_rt(word), off: spec_imm_u(word) },
            6 => Instruction::BLEZ { rs: spec_rs(word), off: spec_imm_u(word) },
            7 => Instruction::BGTZ { rs: spec_rs(word), off: spec_imm_u(word) },
            8 => Instruction::ADDI { rt: spec_rt(word), rs: spec_rs(word), imm: spec_imm_s(word) },
            9 => Instruction::ADDUI { rt: spec_rt(word), rs: spec_rs(word), imm: spec_imm_s(word) },
            10 => Instruction::SLTI { rt: spec_rt(word), rs: spec_rs(word), imm: spec_imm_s(word) },
            11 => Instruction::SLTIU { rt: spec_rt(word), rs: spec_rs(word), imm: spec_imm_u(word) },
            12 => Instruction::ANDI { rt: spec_rt(word), rs: spec_rs(word), imm: spec_imm_u(word) },
            13 => Instruction::ORI { rt: spec_rt(word), rs: spec_rs(word), imm: spec_imm_u(word) },
            14 => Instruction::XORI { rt: spec_rt(word), rs: spec_rs(word), imm: spec_imm_u(word) },
            15 => Instruction::LUI { rt: spec_rt(word), imm: spec_imm_u(word) },
            20 => Instruction::BEQL { rs: spec_rs(word), rt: spec_rt(word), off: spec_imm_u(word) },
            21 => Instruction::BNEL { rs: spec_rs(word), rt: spec_rt(word), off: spec_imm_u(word) },
            22 => Instruction::BLEZL { rs: spec_rs(word), off: spec_imm_u(word) },
            23 => Instruction::BGTZL { rs: spec_rs(word), off: spec_imm_u(word) },
            24 => Instruction::DADDI { rt: spec_rt(word), rs: spec_rs(word), imm: spec_imm_s(word) },
            25 => Instruction::DADDIU { rt: spec_rt(word), rs: spec_rs(word), imm: spec_imm_s(word) },
            26 => Instruction::LDL { rt: spec_rt(word), off: spec_imm_u(word), base: spec_rs(word) },
            27 => Instruction::LDR { rt: spec_rt(word), off: spec_imm_u(word), base: spec_rs(word) },
            32 => Instruction::LB { rt: spec_rt(word), off: spec_imm_u(word), base: spec_rs(word) },
            33 => Instruction::LH { rt: spec_rt(word), off: spec_imm_u(word), base: spec_rs(word) },
            34 => Instruction::LWL { rt: spec_rt(word), off: spec_imm_u(word), base: spec_rs(word) },
            35 => Instruction::LW { rt: spec_rt(word), off: spec_imm_u(word), base: spec_rs(word) },
            36 => Instruction::LBU { rt: spec_rt(word), off: spec_imm_u(word), base: spec_rs(word) },
            37 => Instruction::LHU { rt: spec_rt(word), off: spec_imm_u(word), base: spec_rs(word) },
            38 => Instruction::LWR { rt: spec_rt(word), off: spec_imm_u(word), base: spec_rs(word) },
            39 => Instruction::LWU { rt: spec_rt(word), off: spec_imm_u(word), base: spec_rs(word) },
            40 => Instruction::SB { rt: spec_rt(word), off: spec_imm_u(word), base: spec_rs(word) },
            41 => Instruction::SH { rt: spec_rt(word), off: spec_imm_u(word), base: spec_rs(word) },
            42 => Instruction::SWL { rt: spec_rt(word), off: spec_imm_u(word), base: spec_rs(word) },
            43 => Instruction::SW { rt: spec_rt(word), off: spec_imm_u(word), base: spec_rs(word) },
            44 => Instruction::SDL { rt: spec_rt(word), off: spec_imm_u(word), base: spec_rs(word) },
            45 => Instruction::SDR { rt: spec_rt(word), off: spec_imm_u(word), base: spec_rs(word) },
            50 => Instruction::SWR { rt: spec_rt(word), off: spec_imm_u(word), base: spec_rs(word) },
            51 => Instruction::PREF { hint: spec_rt(word), off: spec_imm_u(word), base: spec_rs(word) },
            55 => Instruction::LD { rt: spec_rt(word), off: spec_imm_u(word), base: spec_rs(word) },
            63 => Instruction::SD { rt: spec_rt(word), off: spec_imm_u(word), base: spec_rs(word) },
            _ => nop_spec(),
        }
    }
}

/// Decodes one machine word. Decoding is pure and stateless: identical
/// words always decode identically, and every register operand of the
/// result is a 5-bit index.
pub fn decode_word(asm_instruction: &u32) -> (r: Instruction)
    ensures
        r == decode_spec(*asm_instruction),
        operand_regs_wf(r),
{
    proof {
        lemma_field_bounds(*asm_instruction);
    }
    match get_instruction_type(asm_instruction) {
        InstructionType::Special { opcode } => match opcode {
            0 => parse_SLL(asm_instruction),
            2 => parse_SRL(asm_instruction),
            3 => parse_SRA(asm_instruction),
            4 => parse_SLLV(asm_instruction),
            6 => parse_SRLV(asm_instruction),
            7 => parse_SRAV(asm_instruction),
            8 => parse_JR(asm_instruction),
            9 => parse_JALR(asm_instruction),
            10 => parse_MOVZ(asm_instruction),
            11 => parse_MOVN(asm_instruction),
            12 => parse_SYSCALL(asm_instruction),
            15 => parse_SYNC(asm_instruction),
            16 => parse_MFHI(asm_instruction),
            17 => parse_MTHI(asm_instruction),
            18 => parse_MFLO(asm_instruction),
            19 => parse_MTLO(asm_instruction),
            20 => parse_DSLLV(asm_instruction),
            22 => parse_DSRLV(asm_instruction),
            23 => parse_DSRAV(asm_instruction),
            24 => parse_MULT(asm_instruction),
            25 => parse_MULTU(asm_instruction),
            26 => parse_DIV(asm_instruction),
            27 => parse_DIVU(asm_instruction),
            32 => parse_ADD(asm_instruction),
            33 => parse_ADDU(asm_instruction),
            34 => parse_SUB(asm_instruction),
            35 => parse_SUBU(asm_instruction),
            36 => parse_AND(asm_instruction),
            37 => parse_OR(asm_instruction),
            38 => parse_XOR(asm_instruction),
            39 => parse_NOR(asm_instruction),
            42 => parse_SLT(asm_instruction),
            43 => parse_SLTU(asm_instruction),
            44 => parse_DADD(asm_instruction),
            45 => parse_DADDU(asm_instruction),
            46 => parse_DSUB(asm_instruction),
            47 => parse_DSUBU(asm_instruction),
            48 => parse_TGE(asm_instruction),
            49 => parse_TGEU(asm_instruction),
            50 => parse_TLT(asm_instruction),
            51 => parse_TLTU(asm_instruction),
            52 => parse_TEQ(asm_instruction),
            54 => parse_TNE(asm_instruction),
            56 => parse_DSLL(asm_instruction),
            58 => parse_DSRL(asm_instruction),
            59 => parse_DSRA(asm_instruction),
            60 => parse_DSLL32(asm_instruction),
            62 => parse_DSRL32(asm_instruction),
            63 => parse_DSRA32(asm_instruction),
            _ => nop(),
        },
        InstructionType::Regimm { opcode } => match opcode {
            0 => parse_BLTZ(asm_instruction),
            1 => parse_BGEZ(asm_instruction),
            2 => parse_BLTZL(asm_instruction),
            3 => parse_BGEZL(asm_instruction),
            8 => parse_TGEI(asm_instruction),
            9 => parse_TGEIU(asm_instruction),
            10 => parse_TLTI(asm_instruction),
            11 => parse_TLTIU(asm_instruction),
            12 => parse_TEQI(asm_instruction),
            13 => parse_BREAK(asm_instruction),
            14 => parse_TNEI(asm_instruction),
            16 => parse_BLTZAL(asm_instruction),
            17 => parse_BGEZAL(asm_instruction),
            18 => parse_BLTZALL(asm_instruction),
            19 => parse_BGEZALL(asm_instruction),
            _ => nop(),
        },
        InstructionType::Normal { opcode } => match opcode {
            2 => parse_J(asm_instruction),
            3 => parse_JAL(asm_instruction),
            4 => parse_BEQ(asm_instruction),
            5 => parse_BNE(asm_instruction),
            6 => parse_BLEZ(asm_instruction),
            7 => parse_BGTZ(asm_instruction),
            8 => parse_ADDI(asm_instruction),
            9 => parse_ADDUI(asm_instruction),
            10 => parse_SLTI(asm_instruction),
            11 => parse_SLTIU(asm_instruction),
            12 => parse_ANDI(asm_instruction),
            13 => parse_ORI(asm_instruction),
            14 => parse_XORI(asm_instruction),
            15 => parse_LUI(asm_instruction),
            20 => parse_BEQL(asm_instruction),
            21 => parse_BNEL(asm_instruction),
            22 => parse_BLEZL(asm_instruction),
            23 => parse_BGTZL(asm_instruction),
            24 => parse_DADDI(asm_instruction),
            25 => parse_DADDIU(asm_instruction),
            26 => parse_LDL(asm_instruction),
            27 => parse_LDR(asm_instruction),
            32 => parse_LB(asm_instruction),
            33 => parse_LH(asm_instruction),
            34 => parse_LWL(asm_instruction),
            35 => parse_LW(asm_instruction),
            36 => parse_LBU(asm_instruction),
            37 => parse_LHU(asm_instruction),
            38 => parse_LWR(asm_instruction),
            39 => parse_LWU(asm_instruction),
            40 => parse_SB(asm_instruction),
            41 => parse_SH(asm_instruction),
            42 => parse_SWL(asm_instruction),
            43 => parse_SW(asm_instruction),
            44 => parse_SDL(asm_instruction),
            45 => parse_SDR(asm_instruction),
            50 => parse_SWR(asm_instruction),
            51 => parse_PREF(asm_instruction),
            55 => parse_LD(asm_instruction),
            63 => parse_SD(asm_instruction),
            _ => nop(),
        },
    }
}

/// Decodes a whole block of machine words, one instruction per word.
pub fn parse_instructions(words: &[u32]) -> (r: Vec<Instruction>)
    ensures
        r@.len() == words@.len(),
        forall|i: int| 0 <= i < words@.len() ==> r@[i] == decode_spec(words@[i]),
{
    let mut out_instructions: Vec<Instruction> = Vec::new();
    let mut i: usize = 0;
    while i < words.len()
        invariant
            i <= words@.len(),
            out_instructions@.len() == i,
            forall|j: int| 0 <= j < i ==> out_instructions@[j] == decode_spec(words@[j]),
        decreases words@.len() - i,
    {
        let word = words[i];
        out_instructions.push(decode_word(&word));
        i = i + 1;
    }
    out_instructions
}

} // verus!
