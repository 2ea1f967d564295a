//! The processor state: 32 general-purpose 128-bit registers with 32- and
//! 64-bit partial views (register 0 hard-wired to zero), the program counter,
//! the two HI/LO multiply-result pairs, the shift-amount latch, and the
//! memory map — together with the fetch/decode/execute machinery.

use vstd::prelude::*;

use crate::ee_arithmetic::{
    ADD, ADDI, ADDIU, ADDU, AND, ANDI, BREAK, DADD, DADDI, DADDIU, DADDU, DIV, DIVU, DSLL, DSLL32,
    DSLLV, DSRA, DSRA32, DSRAV, add_rel, addi_rel, addiu_rel, addu_rel, and_rel, andi_rel,
    break_rel, dadd_rel, daddi_rel, daddiu_rel, daddu_rel, div_rel, divu_rel, dsll32_rel, dsll_rel,
    dsllv_rel, dsra32_rel, dsra_rel, dsrav_rel,
};
use crate::instruction_parser::{decode_spec, decode_word};
use crate::instructions::{Instruction, operand_regs_wf};
use crate::memory::{BIOS_SIZE, Memory, MemoryError, read_spec, zero_bytes};
use vstd::bytes::{spec_u32_from_le_bytes, u32_from_le_bytes};

verus! {

pub const SP_REG: u8 = 29;

pub const RA_REG: u8 = 31;

/// A signal raised by executing an instruction: signed-arithmetic overflow,
/// an explicit breakpoint carrying its diagnostic code, or a fetch from an
/// address outside every declared range.
#[derive(Clone, Copy, Debug, PartialEq, Eq, Structural)]
pub enum Exception {
    IntegerOverflow,
    Breakpoint(u32),
    AddressError,
}

/// The low 32 bits of a 128-bit register value.
pub open spec fn low_32(x: u128) -> u32 {
    x as u32
}

/// The low 64 bits of a 128-bit register value.
pub open spec fn low_64(x: u128) -> u64 {
    x as u64
}

/// `x` with its low 32 bits replaced by `v`; the high 96 bits keep their
/// prior value.
pub open spec fn with_low_32(x: u128, v: u32) -> u128 {
    (x & 0xffffffff_ffffffff_ffffffff_00000000u128) | (v as u128)
}

/// `x` with its low 64 bits replaced by `v`; the high 64 bits keep their
/// prior value.
pub open spec fn with_low_64(x: u128, v: u64) -> u128 {
    (x & 0xffffffff_ffffffff_00000000_00000000u128) | (v as u128)
}

/// The register file after a write of `value` to register `index`: register 0
/// is a sink, so writing it changes nothing.
pub open spec fn regs_after_write(regs: Seq<u128>, index: u8, value: u128) -> Seq<u128> {
    if index == 0 {
        regs
    } else {
        regs.update(index as int, value)
    }
}

pub struct Cpu {
    pub ee_registers: Vec<u128>,
    pub pc: u32,
    pub hi: u64,
    pub lo: u64,
    pub hi1: u64,
    pub lo1: u64,
    pub sa: u32,
    pub memory: Memory,
}

/// The full 128-bit value of register `index`.
pub open spec fn reg_val(cpu: Cpu, index: u8) -> u128 {
    cpu.ee_registers@[index as int]
}

/// Register `index` read at 32-bit width.
pub open spec fn reg32(cpu: Cpu, index: u8) -> u32 {
    low_32(reg_val(cpu, index))
}

/// Register `index` read at 64-bit width.
pub open spec fn reg64(cpu: Cpu, index: u8) -> u64 {
    low_64(reg_val(cpu, index))
}

/// `post` is `pre` with the register file replaced by `regs`; everything
/// else — program counter, HI/LO pairs, shift latch, memory — is untouched.
pub open spec fn cpu_with_regs(pre: Cpu, post: Cpu, regs: Seq<u128>) -> bool {
    &&& post.ee_registers@ == regs
    &&& post.pc == pre.pc
    &&& post.hi == pre.hi
    &&& post.lo == pre.lo
    &&& post.hi1 == pre.hi1
    &&& post.lo1 == pre.lo1
    &&& post.sa == pre.sa
    &&& post.memory == pre.memory
}

/// `post` is `pre` with the primary HI/LO pair replaced; everything else is
/// untouched.
pub open spec fn cpu_with_hi_lo(pre: Cpu, post: Cpu, hi: u64, lo: u64) -> bool {
    &&& post.hi == hi
    &&& post.lo == lo
    &&& post.ee_registers@ == pre.ee_registers@
    &&& post.pc == pre.pc
    &&& post.hi1 == pre.hi1
    &&& post.lo1 == pre.lo1
    &&& post.sa == pre.sa
    &&& post.memory == pre.memory
}

/// What executing one decoded instruction does to the processor state: each
/// implemented opcode's relation, and the identity (with an `Ok` result) for
/// the opcodes whose semantics this core does not implement — including the
/// no-operation sentinel itself.
pub open spec fn step_ok(pre: Cpu, instruction: Instruction, post: Cpu, r: Result<
    (),
    Exception,
>) -> bool {
    match instruction {
        Instruction::ADD { rd, rs, rt } => add_rel(pre, post, r, rd, rs, rt),
        Instruction::ADDI { rt, rs, imm } => addi_rel(pre, post, r, rt, rs, imm),
        Instruction::ADDUI { rt, rs, imm } => addiu_rel(pre, post, r, rt, rs, imm),
        Instruction::ADDU { rd, rs, rt } => addu_rel(pre, post, r, rd, rs, rt),
        Instruction::AND { rd, rs, rt } => and_rel(pre, post, r, rd, rs, rt),
        Instruction::ANDI { rt, rs, imm } => andi_rel(pre, post, r, rt, rs, imm),
        Instruction::BREAK { code } => break_rel(pre, post, r, code),
        Instruction::DADD { rd, rs, rt } => dadd_rel(pre, post, r, rd, rs, rt),
        Instruction::DADDI { rt, rs, imm } => daddi_rel(pre, post, r, rt, rs, imm),
        Instruction::DADDIU { rt, rs, imm } => daddiu_rel(pre, post, r, rt, rs, imm),
        Instruction::DADDU { rd, rs, rt } => daddu_rel(pre, post, r, rd, rs, rt),
        Instruction::DIV { rs, rt } => div_rel(pre, post, r, rs, rt),
        Instruction::DIVU { rs, rt } => divu_rel(pre, post, r, rs, rt),
        Instruction::DSLL { rt, rd, sa } => dsll_rel(pre, post, r, rd, rt, sa),
        Instruction::DSLL32 { rt, rd, sa } => dsll32_rel(pre, post, r, rd, rt, sa),
        Instruction::DSLLV { rd, rt, rs } => dsllv_rel(pre, post, r, rd, rt, rs),
        Instruction::DSRA { rt, rd, sa } => dsra_rel(pre, post, r, rd, rt, sa),
        Instruction::DSRA32 { rt, rd, sa } => dsra32_rel(pre, post, r, rd, rt, sa),
        Instruction::DSRAV { rd, rt, rs } => dsrav_rel(pre, post, r, rd, rt, rs),
        _ => post == pre && r == Ok::<(), Exception>(()),
    }
}

/// `post` is `mid` with the program counter advanced to the next sequential
/// instruction word (wrapping at the top of the address space); everything
/// else is untouched.
pub open spec fn advanced_pc(mid: Cpu, post: Cpu) -> bool {
    &&& post.pc == mid.pc.wrapping_add(4)
    &&& post.ee_registers@ == mid.ee_registers@
    &&& post.hi == mid.hi
    &&& post.lo == mid.lo
    &&& post.hi1 == mid.hi1
    &&& post.lo1 == mid.lo1
    &&& post.sa == mid.sa
    &&& post.memory == mid.memory
}

/// One fetch-decode-execute step. A program counter outside every declared
/// range raises the address-error exception and changes nothing. Otherwise
/// the word at the program counter is decoded and executed; an exception
/// from execution is returned with the program counter unmoved, and a
/// normal completion advances the program counter by one word.
pub open spec fn step_rel(pre: Cpu, post: Cpu, r: Result<(), Exception>) -> bool {
    match read_spec(pre.memory@, pre.pc, 4) {
        Err(_) => post == pre && r == Err::<(), Exception>(Exception::AddressError),
        Ok(bytes) => {
            let instruction = decode_spec(spec_u32_from_le_bytes(bytes));
            match r {
                Err(e) => exists|mid: Cpu|
                    #[trigger] step_ok(pre, instruction, mid, Err(e)) && post == mid,
                Ok(_) => exists|mid: Cpu|
                    #[trigger] step_ok(pre, instruction, mid, Ok(())) && advanced_pc(mid, post),
            }
        },
    }
}

/// `post` is reachable from `pre` by exactly `k` normally-completing
/// fetch-decode-execute steps.
pub open spec fn steps_rel(pre: Cpu, post: Cpu, k: nat) -> bool
    decreases k,
{
    if k == 0 {
        post == pre
    } else {
        exists|mid: Cpu|
            steps_rel(pre, mid, (k - 1) as nat) && #[trigger] step_rel(mid, post, Ok(()))
    }
}

/// `seeded` is `pre` with the stack-pointer register holding `address` and
/// nothing else changed.
pub open spec fn seeded_with_sp(pre: Cpu, seeded: Cpu, address: usize) -> bool {
    cpu_with_regs(pre, seeded, regs_after_write(pre.ee_registers@, SP_REG, address as u128))
}

proof fn lemma_steps_rel_extend(pre: Cpu, mid: Cpu, post: Cpu, k: nat)
    requires
        steps_rel(pre, mid, k),
        step_rel(mid, post, Ok(())),
    ensures
        steps_rel(pre, post, (k + 1) as nat),
{
    assert(steps_rel(pre, mid, ((k + 1) as nat - 1) as nat));
}

impl Cpu {
    /// There are exactly 32 registers, register 0 reads as zero, and every
    /// memory region backs its declared size.
    pub open spec fn wf(&self) -> bool {
        &&& self.ee_registers@.len() == 32
        &&& self.ee_registers@[0] == 0
        &&& self.memory.wf()
    }

    /// A processor at start: all registers zero, HI/LO pairs and shift latch
    /// zero, the caller-supplied initial program counter, and a memory map
    /// holding the given boot-ROM image with every other region zero-filled.
    pub fn new(bios: &[u8], pc: u32) -> (r: Cpu)
        requires
            bios@.len() == BIOS_SIZE,
        ensures
            r.wf(),
            r.ee_registers@ == Seq::new(32, |i: int| 0u128),
            r.pc == pc,
            r.hi == 0,
            r.lo == 0,
            r.hi1 == 0,
            r.lo1 == 0,
            r.sa == 0,
            r.memory@.bios == bios@,
            r.memory@.main == zero_bytes(crate::memory::MAIN_MEMORY_SIZE as nat),
            r.memory@.io_registers == zero_bytes(crate::memory::IO_REGISTERS_SIZE as nat),
            r.memory@.vu0_code == zero_bytes(crate::memory::VU0_CODE_SIZE as nat),
            r.memory@.vu0_data == zero_bytes(crate::memory::VU0_DATA_SIZE as nat),
            r.memory@.vu1_code == zero_bytes(crate::memory::VU1_CODE_SIZE as nat),
            r.memory@.vu1_data == zero_bytes(crate::memory::VU1_DATA_SIZE as nat),
            r.memory@.gs_privileged == zero_bytes(crate::memory::GS_PRIVILEGED_SIZE as nat),
            r.memory@.iop == zero_bytes(crate::memory::IOP_MEMORY_SIZE as nat),
            r.memory@.scratchpad == zero_bytes(crate::memory::SCRATCHPAD_SIZE as nat),
    {
        let mut registers: Vec<u128> = Vec::new();
        let mut i: usize = 0;
        while i < 32
            invariant
                i <= 32,
                registers@.len() == i,
                forall|j: int| 0 <= j < i ==> registers@[j] == 0u128,
            decreases 32 - i,
        {
            registers.push(0u128);
            i = i + 1;
        }
        proof {
            assert(registers@ =~= Seq::new(32, |i: int| 0u128));
        }
        Cpu {
            ee_registers: registers,
            pc,
            hi: 0,
            lo: 0,
            hi1: 0,
            lo1: 0,
            sa: 0,
            memory: Memory::new(bios),
        }
    }

    /// Reads the full 128-bit value of a register.
    pub fn read_ee_register(&self, register: u8) -> (r: u128)
        requires
            register < 32,
            self.wf(),
        ensures
            r == reg_val(*self, register),
    {
        self.ee_registers[register as usize]
    }

    /// Writes the full 128 bits of a register. Writing register 0 is a
    /// guaranteed no-op, enforced here rather than by callers.
    pub fn write_ee_register(&mut self, register: u8, value: u128)
        requires
            register < 32,
            old(self).wf(),
        ensures
            final (self).wf(),
            cpu_with_regs(
                *old(self),
                *final (self),
                regs_after_write(old(self).ee_registers@, register, value),
            ),
    {
        if register != 0 {
            self.ee_registers[register as usize] = value;
        }
    }

    /// Reads the low 32 bits of a register.
    pub fn read_ee_register_32(&self, register: u8) -> (r: u32)
        requires
            register < 32,
            self.wf(),
        ensures
            r == reg32(*self, register),
    {
        self.ee_registers[register as usize] as u32
    }

    /// Writes the low 32 bits of a register, leaving the high 96 bits at
    /// their prior value. Writing register 0 is a guaranteed no-op.
    pub fn write_ee_register_32(&mut self, register: u8, value: u32)
        requires
            register < 32,
            old(self).wf(),
        ensures
            final (self).wf(),
            cpu_with_regs(
                *old(self),
                *final (self),
                regs_after_write(
                    old(self).ee_registers@,
                    register,
                    with_low_32(reg_val(*old(self), register), value),
                ),
            ),
    {
        if register != 0 {
            let prior = self.ee_registers[register as usize];
            self.ee_registers[register as usize] = (prior
                & 0xffffffff_ffffffff_ffffffff_00000000u128) | (value as u128);
        }
    }

    /// Reads the low 64 bits of a register.
    pub fn read_ee_register_64(&self, register: u8) -> (r: u64)
        requires
            register < 32,
            self.wf(),
        ensures
            r == reg64(*self, register),
    {
        self.ee_registers[register as usize] as u64
    }

    /// Writes the low 64 bits of a register, leaving the high 64 bits at
    /// their prior value. Writing register 0 is a guaranteed no-op.
    pub fn write_ee_register_64(&mut self, register: u8, value: u64)
        requires
            register < 32,
            old(self).wf(),
        ensures
            final (self).wf(),
            cpu_with_regs(
                *old(self),
                *final (self),
                regs_after_write(
                    old(self).ee_registers@,
                    register,
                    with_low_64(reg_val(*old(self), register), value),
                ),
            ),
    {
        if register != 0 {
            let prior = self.ee_registers[register as usize];
            self.ee_registers[register as usize] = (prior
                & 0xffffffff_ffffffff_00000000_00000000u128) | (value as u128);
        }
    }

    /// Fetches the machine word at a virtual address and decodes it. An
    /// address outside every declared range is a reported error, never a
    /// wrap.
    pub fn fetch_instruction(&self, address: u32) -> (r: Result<Instruction, MemoryError>)
        ensures
            (match read_spec(self.memory@, address, 4) {
                Ok(bytes) => r == Ok::<Instruction, MemoryError>(
                    decode_spec(spec_u32_from_le_bytes(bytes)),
                ),
                Err(e) => r == Err::<Instruction, MemoryError>(e),
            }),
            (r matches Ok(instruction) ==> operand_regs_wf(instruction)),
    {
        match self.memory.read_address(address, 4) {
            Ok(bytes) => {
                let word = u32_from_le_bytes(bytes.as_slice());
                Ok(decode_word(&word))
            },
            Err(e) => Err(e),
        }
    }

    /// Surfaces an exception to the caller as an error value; the processor
    /// state is left untouched. The fetch/decode/execute loop owns the
    /// decision of what to do with it.
    pub fn throw_exception(&mut self, exception: Exception) -> (r: Result<(), Exception>)
        ensures
            *final (self) == *old(self),
            r == Err::<(), Exception>(exception),
    {
        Err(exception)
    }

    /// Applies one decoded instruction's semantics. Side effects are
    /// confined to register, HI/LO and memory mutation; an opcode whose
    /// semantics this core does not implement leaves the state unchanged.
    pub fn execute_instruction(&mut self, instruction: Instruction) -> (r: Result<(), Exception>)
        requires
            old(self).wf(),
            operand_regs_wf(instruction),
        ensures
            final (self).wf(),
            step_ok(*old(self), instruction, *final (self), r),
    {
        match instruction {
            Instruction::ADD { rd, rs, rt } => ADD(self, rd, rs, rt),
            Instruction::ADDI { rt, rs, imm } => ADDI(self, rt, rs, imm),
            Instruction::ADDUI { rt, rs, imm } => ADDIU(self, rt, rs, imm),
            Instruction::ADDU { rd, rs, rt } => ADDU(self, rd, rs, rt),
            Instruction::AND { rd, rs, rt } => AND(self, rd, rs, rt),
            Instruction::ANDI { rt, rs, imm } => ANDI(self, rt, rs, imm),
            Instruction::BREAK { code } => BREAK(self, code),
            Instruction::DADD { rd, rs, rt } => DADD(self, rd, rs, rt),
            Instruction::DADDI { rt, rs, imm } => DADDI(self, rt, rs, imm),
            Instruction::DADDIU { rt, rs, imm } => DADDIU(self, rt, rs, imm),
            Instruction::DADDU { rd, rs, rt } => DADDU(self, rd, rs, rt),
            Instruction::DIV { rs, rt } => DIV(self, rs, rt),
            Instruction::DIVU { rs, rt } => DIVU(self, rs, rt),
            Instruction::DSLL { rt, rd, sa } => DSLL(self, rd, rt, sa),
            Instruction::DSLL32 { rt, rd, sa } => DSLL32(self, rd, rt, sa),
            Instruction::DSLLV { rd, rt, rs } => DSLLV(self, rd, rt, rs),
            Instruction::DSRA { rt, rd, sa } => DSRA(self, rd, rt, sa),
            Instruction::DSRA32 { rt, rd, sa } => DSRA32(self, rd, rt, sa),
            Instruction::DSRAV { rd, rt, rs } => DSRAV(self, rd, rt, rs),
            _ => Ok(()),
        }
    }

    /// Fetches, decodes and executes exactly one instruction, advancing the
    /// program counter on normal completion.
    pub fn step(&mut self) -> (r: Result<(), Exception>)
        requires
            old(self).wf(),
        ensures
            final (self).wf(),
            step_rel(*old(self), *final (self), r),
    {
        let instruction = match self.fetch_instruction(self.pc) {
            Err(_) => {
                return Err(Exception::AddressError);
            },
            Ok(instruction) => instruction,
        };
        match self.execute_instruction(instruction) {
            Err(e) => {
                proof {
                    let mid = *self;
                    assert(step_ok(*old(self), instruction, mid, Err(e)));
                }
                Err(e)
            },
            Ok(()) => {
                let ghost mid = *self;
                self.pc = self.pc.wrapping_add(4);
                proof {
                    assert(step_ok(*old(self), instruction, mid, Ok(())));
                    assert(advanced_pc(mid, *self));
                }
                Ok(())
            },
        }
    }

    /// The driving loop: seeds the stack-pointer register with the given
    /// address, then steps until an instruction raises an exception or the
    /// step budget runs out, whichever comes first. `None` means the seeded
    /// state completed `max_steps` whole steps; `Some(e)` means some step
    /// after `k < max_steps` completed ones raised `e`.
    pub fn execute(&mut self, address: usize, max_steps: usize) -> (r: Option<Exception>)
        requires
            old(self).wf(),
        ensures
            final (self).wf(),
            (match r {
                None => exists|seeded: Cpu|
                    #[trigger] seeded_with_sp(*old(self), seeded, address) && steps_rel(
                        seeded,
                        *final (self),
                        max_steps as nat,
                    ),
                Some(e) => exists|seeded: Cpu, mid: Cpu, k: nat|
                    {
                        &&& #[trigger] seeded_with_sp(*old(self), seeded, address)
                        &&& #[trigger] steps_rel(seeded, mid, k)
                        &&& k < max_steps
                        &&& step_rel(mid, *final (self), Err(e))
                    },
            }),
    {
        self.write_ee_register(SP_REG, address as u128);
        let ghost seeded = *self;
        let mut i: usize = 0;
        while i < max_steps
            invariant
                self.wf(),
                i <= max_steps,
                seeded_with_sp(*old(self), seeded, address),
                steps_rel(seeded, *self, i as nat),
            decreases max_steps - i,
        {
            let ghost before = *self;
            match self.step() {
                Ok(()) => {},
                Err(e) => {
                    proof {
                        assert(steps_rel(seeded, before, i as nat));
                        assert(step_rel(before, *self, Err(e)));
                    }
                    return Some(e);
                },
            }
            proof {
                lemma_steps_rel_extend(seeded, before, *self, i as nat);
            }
            i = i + 1;
        }
        None
    }
}

} // verus!
