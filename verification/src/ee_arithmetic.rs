//! Per-opcode execution semantics for the arithmetic, logical, divide and
//! shift instructions. Checked signed forms raise the overflow exception and
//! commit nothing; unsigned forms wrap silently; shift amounts taken from a
//! register are masked to 5 bits, and the 32-bit-extended fixed shifts add 32
//! to the encoded amount.

#![allow(non_snake_case)]

use vstd::prelude::*;

use crate::cpu::{
    Cpu, Exception, cpu_with_hi_lo, cpu_with_regs, reg32, reg64, reg_val, regs_after_write,
    with_low_32, with_low_64,
};

verus! {

/// `post` is `pre` with `value` written to the low 32 bits of register
/// `index` (register 0 staying a sink) and nothing else changed.
pub open spec fn wrote_32(pre: Cpu, post: Cpu, index: u8, value: u32) -> bool {
    cpu_with_regs(
        pre,
        post,
        regs_after_write(pre.ee_registers@, index, with_low_32(reg_val(pre, index), value)),
    )
}

/// `post` is `pre` with `value` written to the low 64 bits of register
/// `index` (register 0 staying a sink) and nothing else changed.
pub open spec fn wrote_64(pre: Cpu, post: Cpu, index: u8, value: u64) -> bool {
    cpu_with_regs(
        pre,
        post,
        regs_after_write(pre.ee_registers@, index, with_low_64(reg_val(pre, index), value)),
    )
}

/// Checked signed 32-bit addition of registers `rs + rt` into `rd`: overflow
/// raises the exception and commits nothing.
pub open spec fn add_rel(
    pre: Cpu,
    post: Cpu,
    r: Result<(), Exception>,
    rd: u8,
    rs: u8,
    rt: u8,
) -> bool {
    let a = reg32(pre, rs) as i32;
    let b = reg32(pre, rt) as i32;
    if a + b > i32::MAX || a + b < i32::MIN {
        r == Err::<(), Exception>(Exception::IntegerOverflow) && post == pre
    } else {
        r == Ok::<(), Exception>(()) && wrote_32(pre, post, rd, ((a + b) as i32) as u32)
    }
}

/// Checked signed 32-bit addition of the sign-extended immediate to `rs`,
/// into `rt`: overflow raises the exception and commits nothing.
pub open spec fn addi_rel(
    pre: Cpu,
    post: Cpu,
    r: Result<(), Exception>,
    rt: u8,
    rs: u8,
    imm: i16,
) -> bool {
    let a = reg32(pre, rs) as i32;
    let b = imm as i32;
    if a + b > i32::MAX || a + b < i32::MIN {
        r == Err::<(), Exception>(Exception::IntegerOverflow) && post == pre
    } else {
        r == Ok::<(), Exception>(()) && wrote_32(pre, post, rt, ((a + b) as i32) as u32)
    }
}

/// Wrapping 32-bit addition of the sign-extended immediate to `rs`, into
/// `rt`; always commits.
pub open spec fn addiu_rel(
    pre: Cpu,
    post: Cpu,
    r: Result<(), Exception>,
    rt: u8,
    rs: u8,
    imm: i16,
) -> bool {
    r == Ok::<(), Exception>(()) && wrote_32(
        pre,
        post,
        rt,
        reg32(pre, rs).wrapping_add_signed(imm as i32),
    )
}

/// Wrapping 32-bit addition of registers `rs + rt` into `rd`; always
/// commits.
pub open spec fn addu_rel(
    pre: Cpu,
    post: Cpu,
    r: Result<(), Exception>,
    rd: u8,
    rs: u8,
    rt: u8,
) -> bool {
    r == Ok::<(), Exception>(()) && wrote_32(
        pre,
        post,
        rd,
        reg32(pre, rs).wrapping_add(reg32(pre, rt)),
    )
}

/// Bitwise AND of registers `rs & rt` into `rd` at 32-bit width.
pub open spec fn and_rel(
    pre: Cpu,
    post: Cpu,
    r: Result<(), Exception>,
    rd: u8,
    rs: u8,
    rt: u8,
) -> bool {
    r == Ok::<(), Exception>(()) && wrote_32(pre, post, rd, reg32(pre, rs) & reg32(pre, rt))
}

/// Bitwise AND of `rs` with the zero-extended immediate, into `rt`.
pub open spec fn andi_rel(
    pre: Cpu,
    post: Cpu,
    r: Result<(), Exception>,
    rt: u8,
    rs: u8,
    imm: u16,
) -> bool {
    r == Ok::<(), Exception>(()) && wrote_32(pre, post, rt, reg32(pre, rs) & (imm as u32))
}

/// A breakpoint: raises the exception carrying the decoded code and commits
/// no mutation.
pub open spec fn break_rel(pre: Cpu, post: Cpu, r: Result<(), Exception>, code: u32) -> bool {
    r == Err::<(), Exception>(Exception::Breakpoint(code)) && post == pre
}

/// Checked signed 64-bit addition of registers `rs + rt` into `rd`.
pub open spec fn dadd_rel(
    pre: Cpu,
    post: Cpu,
    r: Result<(), Exception>,
    rd: u8,
    rs: u8,
    rt: u8,
) -> bool {
    let a = reg64(pre, rs) as i64;
    let b = reg64(pre, rt) as i64;
    if a + b > i64::MAX || a + b < i64::MIN {
        r == Err::<(), Exception>(Exception::IntegerOverflow) && post == pre
    } else {
        r == Ok::<(), Exception>(()) && wrote_64(pre, post, rd, ((a + b) as i64) as u64)
    }
}

/// Checked signed 64-bit addition of the sign-extended immediate to `rs`,
/// into `rt`.
pub open spec fn daddi_rel(
    pre: Cpu,
    post: Cpu,
    r: Result<(), Exception>,
    rt: u8,
    rs: u8,
    imm: i16,
) -> bool {
    let a = reg64(pre, rs) as i64;
    let b = imm as i64;
    if a + b > i64::MAX || a + b < i64::MIN {
        r == Err::<(), Exception>(Exception::IntegerOverflow) && post == pre
    } else {
        r == Ok::<(), Exception>(()) && wrote_64(pre, post, rt, ((a + b) as i64) as u64)
    }
}

/// Wrapping 64-bit addition of the sign-extended immediate to `rs`, into
/// `rt`; always commits.
pub open spec fn daddiu_rel(
    pre: Cpu,
    post: Cpu,
    r: Result<(), Exception>,
    rt: u8,
    rs: u8,
    imm: i16,
) -> bool {
    r == Ok::<(), Exception>(()) && wrote_64(
        pre,
        post,
        rt,
        reg64(pre, rs).wrapping_add_signed(imm as i64),
    )
}

/// Wrapping 64-bit addition of registers `rs + rt` into `rd`; always
/// commits.
pub open spec fn daddu_rel(
    pre: Cpu,
    post: Cpu,
    r: Result<(), Exception>,
    rd: u8,
    rs: u8,
    rt: u8,
) -> bool {
    r == Ok::<(), Exception>(()) && wrote_64(
        pre,
        post,
        rd,
        reg64(pre, rs).wrapping_add(reg64(pre, rt)),
    )
}

/// The magnitude of a signed 32-bit value, as an unsigned 32-bit value.
pub open spec fn magnitude_32(x: i32) -> u32 {
    if x >= 0 {
        x as u32
    } else {
        (0 - x) as u32
    }
}

/// A signed 32-bit value sign-extended to a 64-bit register pattern.
pub open spec fn sign_extend_32(x: i32) -> u64 {
    (x as i64) as u64
}

/// The LO result of signed 32-bit division: the quotient, truncated toward
/// zero. Division by zero yields all ones, and the one overflowing case
/// (`i32::MIN / -1`) yields the sign-extended dividend; both are the
/// documented convention for results the architecture leaves unspecified.
pub open spec fn div_lo(a: i32, b: i32) -> u64 {
    if b == 0 {
        0xffffffff_ffffffffu64
    } else if a == i32::MIN && b == -1 {
        sign_extend_32(i32::MIN)
    } else {
        let q = magnitude_32(a) / magnitude_32(b);
        if (a < 0) != (b < 0) {
            (0 - q) as u64
        } else {
            q as u64
        }
    }
}

/// The HI result of signed 32-bit division: the remainder, with the sign of
/// the dividend. Division by zero yields the sign-extended dividend, and
/// `i32::MIN / -1` yields zero (documented convention).
pub open spec fn div_hi(a: i32, b: i32) -> u64 {
    if b == 0 {
        sign_extend_32(a)
    } else if a == i32::MIN && b == -1 {
        0u64
    } else {
        let m = magnitude_32(a) % magnitude_32(b);
        if a < 0 {
            (0 - m) as u64
        } else {
            m as u64
        }
    }
}

/// Signed 32-bit division of `rs / rt`: quotient into LO, remainder into HI,
/// per `div_lo` and `div_hi`.
pub open spec fn div_rel(pre: Cpu, post: Cpu, r: Result<(), Exception>, rs: u8, rt: u8) -> bool {
    let a = reg32(pre, rs) as i32;
    let b = reg32(pre, rt) as i32;
    r == Ok::<(), Exception>(()) && cpu_with_hi_lo(pre, post, div_hi(a, b), div_lo(a, b))
}

/// The LO result of unsigned 32-bit division: the quotient, zero-extended.
/// Division by zero yields all ones (documented convention).
pub open spec fn divu_lo(a: u32, b: u32) -> u64 {
    if b == 0 {
        0xffffffff_ffffffffu64
    } else {
        (a / b) as u64
    }
}

/// The HI result of unsigned 32-bit division: the remainder, zero-extended.
/// Division by zero yields the zero-extended dividend (documented
/// convention).
pub open spec fn divu_hi(a: u32, b: u32) -> u64 {
    if b == 0 {
        a as u64
    } else {
        (a % b) as u64
    }
}

/// Unsigned 32-bit division of `rs / rt`: quotient into LO, remainder into
/// HI, per `divu_lo` and `divu_hi`.
pub open spec fn divu_rel(pre: Cpu, post: Cpu, r: Result<(), Exception>, rs: u8, rt: u8) -> bool {
    let a = reg32(pre, rs);
    let b = reg32(pre, rt);
    r == Ok::<(), Exception>(()) && cpu_with_hi_lo(pre, post, divu_hi(a, b), divu_lo(a, b))
}

/// Fixed 64-bit left shift of `rt` by the encoded amount, into `rd`. The
/// amount is taken modulo 64, so the operation is total over the field's
/// `u8` carrier; decoded instructions always carry a 5-bit amount.
pub open spec fn dsll_rel(
    pre: Cpu,
    post: Cpu,
    r: Result<(), Exception>,
    rd: u8,
    rt: u8,
    sa: u8,
) -> bool {
    r == Ok::<(), Exception>(()) && wrote_64(pre, post, rd, reg64(pre, rt) << (sa & 0x3f))
}

/// Fixed 64-bit left shift of `rt` by the encoded 5-bit amount plus 32, into
/// `rd`.
pub open spec fn dsll32_rel(
    pre: Cpu,
    post: Cpu,
    r: Result<(), Exception>,
    rd: u8,
    rt: u8,
    sa: u8,
) -> bool {
    r == Ok::<(), Exception>(()) && wrote_64(pre, post, rd, reg64(pre, rt) << ((sa & 0x1f) + 32))
}

/// Variable 64-bit left shift of `rt` by the low 5 bits of register `rs`,
/// into `rd`.
pub open spec fn dsllv_rel(
    pre: Cpu,
    post: Cpu,
    r: Result<(), Exception>,
    rd: u8,
    rt: u8,
    rs: u8,
) -> bool {
    r == Ok::<(), Exception>(()) && wrote_64(
        pre,
        post,
        rd,
        reg64(pre, rt) << (reg32(pre, rs) & 0x1f),
    )
}

/// Fixed 64-bit arithmetic (sign-extending) right shift of `rt` by the
/// encoded amount, into `rd`; the amount is taken modulo 64.
pub open spec fn dsra_rel(
    pre: Cpu,
    post: Cpu,
    r: Result<(), Exception>,
    rd: u8,
    rt: u8,
    sa: u8,
) -> bool {
    r == Ok::<(), Exception>(()) && wrote_64(
        pre,
        post,
        rd,
        ((reg64(pre, rt) as i64) >> (sa & 0x3f)) as u64,
    )
}

/// Fixed 64-bit arithmetic right shift of `rt` by the encoded 5-bit amount
/// plus 32, into `rd`.
pub open spec fn dsra32_rel(
    pre: Cpu,
    post: Cpu,
    r: Result<(), Exception>,
    rd: u8,
    rt: u8,
    sa: u8,
) -> bool {
    r == Ok::<(), Exception>(()) && wrote_64(
        pre,
        post,
        rd,
        ((reg64(pre, rt) as i64) >> ((sa & 0x1f) + 32)) as u64,
    )
}

/// Variable 64-bit arithmetic right shift of `rt` by the low 5 bits of
/// register `rs`, into `rd`.
pub open spec fn dsrav_rel(
    pre: Cpu,
    post: Cpu,
    r: Result<(), Exception>,
    rd: u8,
    rt: u8,
    rs: u8,
) -> bool {
    r == Ok::<(), Exception>(()) && wrote_64(
        pre,
        post,
        rd,
        ((reg64(pre, rt) as i64) >> (reg32(pre, rs) & 0x1f)) as u64,
    )
}

proof fn lemma_mask_5_u8(x: u8)
    by (bit_vector)
    ensures
        x & 0x1f < 32,
{
}

proof fn lemma_mask_6_u8(x: u8)
    by (bit_vector)
    ensures
        x & 0x3f < 64,
{
}

proof fn lemma_mask_5_u32(x: u32)
    by (bit_vector)
    ensures
        x & 0x1f < 32,
{
}

pub fn ADD(cpu: &mut Cpu, rd: u8, rs: u8, rt: u8) -> (r: Result<(), Exception>)
    requires
        rd < 32,
        rs < 32,
        rt < 32,
        old(cpu).wf(),
    ensures
        final (cpu).wf(),
        add_rel(*old(cpu), *final (cpu), r, rd, rs, rt),
{
    let a = cpu.read_ee_register_32(rs) as i32;
    let b = cpu.read_ee_register_32(rt) as i32;
    match a.checked_add(b) {
        Some(value) => {
            cpu.write_ee_register_32(rd, value as u32);
            Ok(())
        },
        None => cpu.throw_exception(Exception::IntegerOverflow),
    }
}

pub fn ADDI(cpu: &mut Cpu, rt: u8, rs: u8, imm: i16) -> (r: Result<(), Exception>)
    requires
        rt < 32,
        rs < 32,
        old(cpu).wf(),
    ensures
        final (cpu).wf(),
        addi_rel(*old(cpu), *final (cpu), r, rt, rs, imm),
{
    let a = cpu.read_ee_register_32(rs) as i32;
    match a.checked_add(imm as i32) {
        Some(value) => {
            cpu.write_ee_register_32(rt, value as u32);
            Ok(())
        },
        None => cpu.throw_exception(Exception::IntegerOverflow),
    }
}

pub fn ADDIU(cpu: &mut Cpu, rt: u8, rs: u8, imm: i16) -> (r: Result<(), Exception>)
    requires
        rt < 32,
        rs < 32,
        old(cpu).wf(),
    ensures
        final (cpu).wf(),
        addiu_rel(*old(cpu), *final (cpu), r, rt, rs, imm),
{
    let value = cpu.read_ee_register_32(rs).wrapping_add_signed(imm as i32);
    cpu.write_ee_register_32(rt, value);
    Ok(())
}

pub fn ADDU(cpu: &mut Cpu, rd: u8, rs: u8, rt: u8) -> (r: Result<(), Exception>)
    requires
        rd < 32,
        rs < 32,
        rt < 32,
        old(cpu).wf(),
    ensures
        final (cpu).wf(),
        addu_rel(*old(cpu), *final (cpu), r, rd, rs, rt),
{
    let value = cpu.read_ee_register_32(rs).wrapping_add(cpu.read_ee_register_32(rt));
    cpu.write_ee_register_32(rd, value);
    Ok(())
}

pub fn AND(cpu: &mut Cpu, rd: u8, rs: u8, rt: u8) -> (r: Result<(), Exception>)
    requires
        rd < 32,
        rs < 32,
        rt < 32,
        old(cpu).wf(),
    ensures
        final (cpu).wf(),
        and_rel(*old(cpu), *final (cpu), r, rd, rs, rt),
{
    let value = cpu.read_ee_register_32(rs) & cpu.read_ee_register_32(rt);
    cpu.write_ee_register_32(rd, value);
    Ok(())
}

pub fn ANDI(cpu: &mut Cpu, rt: u8, rs: u8, imm: u16) -> (r: Result<(), Exception>)
    requires
        rt < 32,
        rs < 32,
        old(cpu).wf(),
    ensures
        final (cpu).wf(),
        andi_rel(*old(cpu), *final (cpu), r, rt, rs, imm),
{
    let value = cpu.read_ee_register_32(rs) & (imm as u32);
    cpu.write_ee_register_32(rt, value);
    Ok(())
}

pub fn BREAK(cpu: &mut Cpu, code: u32) -> (r: Result<(), Exception>)
    requires
        old(cpu).wf(),
    ensures
        final (cpu).wf(),
        break_rel(*old(cpu), *final (cpu), r, code),
{
    cpu.throw_exception(Exception::Breakpoint(code))
}

pub fn DADD(cpu: &mut Cpu, rd: u8, rs: u8, rt: u8) -> (r: Result<(), Exception>)
    requires
        rd < 32,
        rs < 32,
        rt < 32,
        old(cpu).wf(),
    ensures
        final (cpu).wf(),
        dadd_rel(*old(cpu), *final (cpu), r, rd, rs, rt),
{
    let a = cpu.read_ee_register_64(rs) as i64;
    let b = cpu.read_ee_register_64(rt) as i64;
    match a.checked_add(b) {
        Some(value) => {
            cpu.write_ee_register_64(rd, value as u64);
            Ok(())
        },
        None => cpu.throw_exception(Exception::IntegerOverflow),
    }
}

pub fn DADDI(cpu: &mut Cpu, rt: u8, rs: u8, imm: i16) -> (r: Result<(), Exception>)
    requires
        rt < 32,
        rs < 32,
        old(cpu).wf(),
    ensures
        final (cpu).wf(),
        daddi_rel(*old(cpu), *final (cpu), r, rt, rs, imm),
{
    let a = cpu.read_ee_register_64(rs) as i64;
    match a.checked_add(imm as i64) {
        Some(value) => {
            cpu.write_ee_register_64(rt, value as u64);
            Ok(())
        },
        None => cpu.throw_exception(Exception::IntegerOverflow),
    }
}

pub fn DADDIU(cpu: &mut Cpu, rt: u8, rs: u8, imm: i16) -> (r: Result<(), Exception>)
    requires
        rt < 32,
        rs < 32,
        old(cpu).wf(),
    ensures
        final (cpu).wf(),
        daddiu_rel(*old(cpu), *final (cpu), r, rt, rs, imm),
{
    let value = cpu.read_ee_register_64(rs).wrapping_add_signed(imm as i64);
    cpu.write_ee_register_64(rt, value);
    Ok(())
}

pub fn DADDU(cpu: &mut Cpu, rd: u8, rs: u8, rt: u8) -> (r: Result<(), Exception>)
    requires
        rd < 32,
        rs < 32,
        rt < 32,
        old(cpu).wf(),
    ensures
        final (cpu).wf(),
        daddu_rel(*old(cpu), *final (cpu), r, rd, rs, rt),
{
    let value = cpu.read_ee_register_64(rs).wrapping_add(cpu.read_ee_register_64(rt));
    cpu.write_ee_register_64(rd, value);
    Ok(())
}

/// The magnitude of a signed 32-bit value, total over the whole range.
fn magnitude_of_i32(x: i32) -> (r: u32)
    ensures
        r == magnitude_32(x),
{
    if x >= 0 {
        x as u32
    } else {
        (0i64 - (x as i64)) as u32
    }
}

pub fn DIV(cpu: &mut Cpu, rs: u8, rt: u8) -> (r: Result<(), Exception>)
    requires
        rs < 32,
        rt < 32,
        old(cpu).wf(),
    ensures
        final (cpu).wf(),
        div_rel(*old(cpu), *final (cpu), r, rs, rt),
{
    let a = cpu.read_ee_register_32(rs) as i32;
    let b = cpu.read_ee_register_32(rt) as i32;
    if b == 0 {
        cpu.lo = 0xffffffff_ffffffffu64;
        cpu.hi = (a as i64) as u64;
    } else if a == i32::MIN && b == -1 {
        cpu.lo = (a as i64) as u64;
        cpu.hi = 0;
    } else {
        let ma = magnitude_of_i32(a);
        let mb = magnitude_of_i32(b);
        let q = ma / mb;
        let m = ma % mb;
        cpu.lo = if (a < 0) != (b < 0) {
            (0i64 - (q as i64)) as u64
        } else {
            q as u64
        };
        cpu.hi = if a < 0 {
            (0i64 - (m as i64)) as u64
        } else {
            m as u64
        };
    }
    Ok(())
}

pub fn DIVU(cpu: &mut Cpu, rs: u8, rt: u8) -> (r: Result<(), Exception>)
    requires
        rs < 32,
        rt < 32,
        old(cpu).wf(),
    ensures
        final (cpu).wf(),
        divu_rel(*old(cpu), *final (cpu), r, rs, rt),
{
    let a = cpu.read_ee_register_32(rs);
    let b = cpu.read_ee_register_32(rt);
    if b == 0 {
        cpu.lo = 0xffffffff_ffffffffu64;
        cpu.hi = a as u64;
    } else {
        cpu.lo = (a / b) as u64;
        cpu.hi = (a % b) as u64;
    }
    Ok(())
}

pub fn DSLL(cpu: &mut Cpu, rd: u8, rt: u8, sa: u8) -> (r: Result<(), Exception>)
    requires
        rd < 32,
        rt < 32,
        old(cpu).wf(),
    ensures
        final (cpu).wf(),
        dsll_rel(*old(cpu), *final (cpu), r, rd, rt, sa),
{
    proof {
        lemma_mask_6_u8(sa);
    }
    let value = cpu.read_ee_register_64(rt) << (sa & 0x3f);
    cpu.write_ee_register_64(rd, value);
    Ok(())
}

pub fn DSLL32(cpu: &mut Cpu, rd: u8, rt: u8, sa: u8) -> (r: Result<(), Exception>)
    requires
        rd < 32,
        rt < 32,
        old(cpu).wf(),
    ensures
        final (cpu).wf(),
        dsll32_rel(*old(cpu), *final (cpu), r, rd, rt, sa),
{
    proof {
        lemma_mask_5_u8(sa);
    }
    let amount: u8 = (sa & 0x1f) + 32;
    let value = cpu.read_ee_register_64(rt) << amount;
    cpu.write_ee_register_64(rd, value);
    Ok(())
}

pub fn DSLLV(cpu: &mut Cpu, rd: u8, rt: u8, rs: u8) -> (r: Result<(), Exception>)
    requires
        rd < 32,
        rt < 32,
        rs < 32,
        old(cpu).wf(),
    ensures
        final (cpu).wf(),
        dsllv_rel(*old(cpu), *final (cpu), r, rd, rt, rs),
{
    let amount = cpu.read_ee_register_32(rs) & 0x1f;
    proof {
        lemma_mask_5_u32(reg32(*old(cpu), rs));
    }
    let value = cpu.read_ee_register_64(rt) << amount;
    cpu.write_ee_register_64(rd, value);
    Ok(())
}

pub fn DSRA(cpu: &mut Cpu, rd: u8, rt: u8, sa: u8) -> (r: Result<(), Exception>)
    requires
        rd < 32,
        rt < 32,
        old(cpu).wf(),
    ensures
        final (cpu).wf(),
        dsra_rel(*old(cpu), *final (cpu), r, rd, rt, sa),
{
    proof {
        lemma_mask_6_u8(sa);
    }
    let value = ((cpu.read_ee_register_64(rt) as i64) >> (sa & 0x3f)) as u64;
    cpu.write_ee_register_64(rd, value);
    Ok(())
}

pub fn DSRA32(cpu: &mut Cpu, rd: u8, rt: u8, sa: u8) -> (r: Result<(), Exception>)
    requires
        rd < 32,
        rt < 32,
        old(cpu).wf(),
    ensures
        final (cpu).wf(),
        dsra32_rel(*old(cpu), *final (cpu), r, rd, rt, sa),
{
    proof {
        lemma_mask_5_u8(sa);
    }
    let amount: u8 = (sa & 0x1f) + 32;
    let value = ((cpu.read_ee_register_64(rt) as i64) >> amount) as u64;
    cpu.write_ee_register_64(rd, value);
    Ok(())
}

pub fn DSRAV(cpu: &mut Cpu, rd: u8, rt: u8, rs: u8) -> (r: Result<(), Exception>)
    requires
        rd < 32,
        rt < 32,
        rs < 32,
        old(cpu).wf(),
    ensures
        final (cpu).wf(),
        dsrav_rel(*old(cpu), *final (cpu), r, rd, rt, rs),
{
    let amount = cpu.read_ee_register_32(rs) & 0x1f;
    proof {
        lemma_mask_5_u32(reg32(*old(cpu), rs));
    }
    let value = ((cpu.read_ee_register_64(rt) as i64) >> amount) as u64;
    cpu.write_ee_register_64(rd, value);
    Ok(())
}

} // verus!
