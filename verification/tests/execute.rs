use emotion_engine::cpu::{Cpu, Exception};
use emotion_engine::ee_arithmetic::{
    ADD, ADDI, ADDIU, ADDU, AND, ANDI, BREAK, DADD, DADDIU, DADDU, DIV, DIVU, DSLL, DSLL32, DSLLV,
    DSRA, DSRA32,
};
use emotion_engine::instruction_parser::parse_instructions;
use emotion_engine::instructions::Instruction;

fn make_cpu() -> Cpu {
    Cpu::new(&vec![0u8; 4 * 1024 * 1024], 0)
}

#[test]
fn test_add_overflow_raises_and_commits_nothing() {
    let mut cpu = make_cpu();
    cpu.write_ee_register_32(1, 0x7fff_ffff);
    cpu.write_ee_register_32(2, 1);
    cpu.write_ee_register_32(3, 0xdead_beef);

    assert_eq!(ADD(&mut cpu, 3, 1, 2), Err(Exception::IntegerOverflow));
    assert_eq!(cpu.read_ee_register_32(3), 0xdead_beef);

    // Near the negative bound: (-0x80000000) + (-1) overflows too.
    cpu.write_ee_register_32(1, 0x8000_0000);
    cpu.write_ee_register_32(2, 0xffff_ffff);
    assert_eq!(ADD(&mut cpu, 3, 1, 2), Err(Exception::IntegerOverflow));
    assert_eq!(cpu.read_ee_register_32(3), 0xdead_beef);

    // In-range signed addition commits.
    cpu.write_ee_register_32(1, 0x7fff_fffe);
    cpu.write_ee_register_32(2, 1);
    assert_eq!(ADD(&mut cpu, 3, 1, 2), Ok(()));
    assert_eq!(cpu.read_ee_register_32(3), 0x7fff_ffff);
}

#[test]
fn test_addu_wraps_and_commits() {
    let mut cpu = make_cpu();
    cpu.write_ee_register_32(1, 0x7fff_ffff);
    cpu.write_ee_register_32(2, 1);
    assert_eq!(ADDU(&mut cpu, 3, 1, 2), Ok(()));
    assert_eq!(cpu.read_ee_register_32(3), 0x8000_0000);

    cpu.write_ee_register_32(1, 0x8000_0000);
    cpu.write_ee_register_32(2, 0xffff_ffff);
    assert_eq!(ADDU(&mut cpu, 3, 1, 2), Ok(()));
    assert_eq!(cpu.read_ee_register_32(3), 0x7fff_ffff);
}

#[test]
fn test_addi_sign_extends() {
    let mut cpu = make_cpu();
    cpu.write_ee_register_32(1, 10);
    assert_eq!(ADDI(&mut cpu, 2, 1, -3), Ok(()));
    assert_eq!(cpu.read_ee_register_32(2), 7);

    cpu.write_ee_register_32(1, 0x8000_0000);
    assert_eq!(ADDI(&mut cpu, 2, 1, -1), Err(Exception::IntegerOverflow));
}

#[test]
fn test_addiu_wraps() {
    let mut cpu = make_cpu();
    cpu.write_ee_register_32(1, 0);
    assert_eq!(ADDIU(&mut cpu, 2, 1, -1), Ok(()));
    assert_eq!(cpu.read_ee_register_32(2), 0xffff_ffff);
}

#[test]
fn test_bitwise_and() {
    let mut cpu = make_cpu();
    cpu.write_ee_register_32(1, 0xff00_ff00);
    cpu.write_ee_register_32(2, 0x0ff0_0ff0);
    assert_eq!(AND(&mut cpu, 3, 1, 2), Ok(()));
    assert_eq!(cpu.read_ee_register_32(3), 0x0f00_0f00);

    assert_eq!(ANDI(&mut cpu, 4, 1, 0xffff), Ok(()));
    assert_eq!(cpu.read_ee_register_32(4), 0x0000_ff00);
}

#[test]
fn test_dadd_family() {
    let mut cpu = make_cpu();
    cpu.write_ee_register_64(1, 0x7fff_ffff_ffff_ffff);
    cpu.write_ee_register_64(2, 1);
    cpu.write_ee_register_64(3, 0x1234);

    assert_eq!(DADD(&mut cpu, 3, 1, 2), Err(Exception::IntegerOverflow));
    assert_eq!(cpu.read_ee_register_64(3), 0x1234);

    assert_eq!(DADDU(&mut cpu, 3, 1, 2), Ok(()));
    assert_eq!(cpu.read_ee_register_64(3), 0x8000_0000_0000_0000);

    cpu.write_ee_register_64(4, 5);
    assert_eq!(DADDIU(&mut cpu, 5, 4, -6), Ok(()));
    assert_eq!(cpu.read_ee_register_64(5), 0xffff_ffff_ffff_ffff);
}

#[test]
fn test_div_signed() {
    let mut cpu = make_cpu();
    cpu.write_ee_register_32(1, (-7i32) as u32);
    cpu.write_ee_register_32(2, 2);
    assert_eq!(DIV(&mut cpu, 1, 2), Ok(()));
    // Quotient truncates toward zero; the remainder carries the dividend's
    // sign; both are sign-extended into the 64-bit LO/HI.
    assert_eq!(cpu.lo, 0xffff_ffff_ffff_fffd);
    assert_eq!(cpu.hi, 0xffff_ffff_ffff_ffff);

    cpu.write_ee_register_32(1, 7);
    cpu.write_ee_register_32(2, (-2i32) as u32);
    assert_eq!(DIV(&mut cpu, 1, 2), Ok(()));
    assert_eq!(cpu.lo, 0xffff_ffff_ffff_fffd);
    assert_eq!(cpu.hi, 1);
}

#[test]
fn test_div_by_zero_convention() {
    let mut cpu = make_cpu();
    cpu.write_ee_register_32(1, 41);
    cpu.write_ee_register_32(2, 0);
    assert_eq!(DIV(&mut cpu, 1, 2), Ok(()));
    assert_eq!(cpu.lo, 0xffff_ffff_ffff_ffff);
    assert_eq!(cpu.hi, 41);

    assert_eq!(DIVU(&mut cpu, 1, 2), Ok(()));
    assert_eq!(cpu.lo, 0xffff_ffff_ffff_ffff);
    assert_eq!(cpu.hi, 41);
}

#[test]
fn test_div_min_by_minus_one_convention() {
    let mut cpu = make_cpu();
    cpu.write_ee_register_32(1, 0x8000_0000);
    cpu.write_ee_register_32(2, (-1i32) as u32);
    assert_eq!(DIV(&mut cpu, 1, 2), Ok(()));
    assert_eq!(cpu.lo, 0xffff_ffff_8000_0000);
    assert_eq!(cpu.hi, 0);
}

#[test]
fn test_divu_unsigned() {
    let mut cpu = make_cpu();
    cpu.write_ee_register_32(1, 0xffff_fff7);
    cpu.write_ee_register_32(2, 0x10);
    assert_eq!(DIVU(&mut cpu, 1, 2), Ok(()));
    assert_eq!(cpu.lo, 0x0fff_ffff);
    assert_eq!(cpu.hi, 7);
}

#[test]
fn test_shifts() {
    let mut cpu = make_cpu();
    cpu.write_ee_register_64(1, 0x8000_0000_0000_0001);

    assert_eq!(DSLL(&mut cpu, 2, 1, 4), Ok(()));
    assert_eq!(cpu.read_ee_register_64(2), 0x0000_0000_0000_0010);

    assert_eq!(DSRA(&mut cpu, 2, 1, 4), Ok(()));
    assert_eq!(cpu.read_ee_register_64(2), 0xf800_0000_0000_0000);

    cpu.write_ee_register_32(3, 0x23);  // masked to 5 bits: shifts by 3
    cpu.write_ee_register_64(1, 1);
    assert_eq!(DSLLV(&mut cpu, 2, 1, 3), Ok(()));
    assert_eq!(cpu.read_ee_register_64(2), 8);
}

#[test]
fn test_dsll32_equals_dsll_plus_32() {
    let mut first = make_cpu();
    first.write_ee_register_64(1, 0x0000_0000_9abc_def0);
    assert_eq!(DSLL32(&mut first, 2, 1, 0), Ok(()));
    assert_eq!(first.read_ee_register_64(2), 0x9abc_def0_0000_0000);

    // The non-extended form with amount 32 (not encodable in the 5-bit
    // field, but defined by the execution semantics) agrees.
    let mut second = make_cpu();
    second.write_ee_register_64(1, 0x0000_0000_9abc_def0);
    assert_eq!(
        second.execute_instruction(Instruction::DSLL { rt: 1, rd: 2, sa: 32 }),
        Ok(())
    );
    assert_eq!(second.read_ee_register_64(2), first.read_ee_register_64(2));

    assert_eq!(DSRA32(&mut first, 3, 1, 5), Ok(()));
    assert_eq!(
        second.execute_instruction(Instruction::DSRA { rt: 1, rd: 3, sa: 37 }),
        Ok(())
    );
    assert_eq!(second.read_ee_register_64(3), first.read_ee_register_64(3));
}

#[test]
fn test_break_raises_breakpoint() {
    let mut cpu = make_cpu();
    cpu.write_ee_register_32(7, 0x1234);
    assert_eq!(BREAK(&mut cpu, 0x42), Err(Exception::Breakpoint(0x42)));
    assert_eq!(cpu.read_ee_register_32(7), 0x1234);
}

#[test]
fn test_end_to_end_add() {
    let decoded = parse_instructions(&[0x0022_1820]);
    assert_eq!(decoded[0], Instruction::ADD { rd: 3, rs: 1, rt: 2 });

    let mut cpu = make_cpu();
    cpu.write_ee_register_32(1, 1);
    cpu.write_ee_register_32(2, 2);
    assert_eq!(cpu.execute_instruction(decoded[0]), Ok(()));
    assert_eq!(cpu.read_ee_register_32(3), 3);
}

#[test]
fn test_unimplemented_opcode_is_inert() {
    let mut cpu = make_cpu();
    cpu.write_ee_register_32(1, 7);
    assert_eq!(
        cpu.execute_instruction(Instruction::MULT { rs: 1, rt: 1 }),
        Ok(())
    );
    assert_eq!(cpu.lo, 0);
    assert_eq!(cpu.hi, 0);
    assert_eq!(cpu.read_ee_register_32(1), 7);
}
