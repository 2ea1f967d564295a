use emotion_engine::instruction_parser::parse_instructions;
use emotion_engine::instructions::Instruction;

#[test]
fn test_decode_zero_word_is_nop() {
    let decoded = parse_instructions(&[0x0000_0000]);
    assert_eq!(decoded.len(), 1);
    assert_eq!(decoded[0], Instruction::SLL { rt: 0, rd: 0, sa: 0 });
}

#[test]
fn test_decode_unmapped_opcodes_are_nop() {
    // Special funct 41, Regimm opcode 4, Normal opcode 16: all unassigned.
    let decoded = parse_instructions(&[0x0000_0029, 0x0404_0000, 0x4000_0000]);
    for instruction in &decoded {
        assert_eq!(*instruction, Instruction::SLL { rt: 0, rd: 0, sa: 0 });
    }
}

#[test]
fn test_decode_add_word() {
    let decoded = parse_instructions(&[0x0022_1820]);
    assert_eq!(decoded[0], Instruction::ADD { rd: 3, rs: 1, rt: 2 });
}

#[test]
fn test_decode_special_family() {
    let decoded = parse_instructions(&[
        // SUBU rd=4, rt=6, rs=5 (funct 35)
        (5 << 21) | (6 << 16) | (4 << 11) | 35,
        // DSLL32 rd=2, rt=1, sa=7 (funct 60)
        (1 << 16) | (2 << 11) | (7 << 6) | 60,
        // DIV rs=8, rt=9 (funct 26)
        (8 << 21) | (9 << 16) | 26,
        // SYSCALL code 0x42 (funct 12)
        (0x42 << 6) | 12,
    ]);
    assert_eq!(decoded[0], Instruction::SUBU { rd: 4, rt: 6, rs: 5 });
    assert_eq!(decoded[1], Instruction::DSLL32 { rt: 1, rd: 2, sa: 7 });
    assert_eq!(decoded[2], Instruction::DIV { rs: 8, rt: 9 });
    assert_eq!(decoded[3], Instruction::SYSCALL { code: 0x42 });
}

#[test]
fn test_decode_regimm_family() {
    let decoded = parse_instructions(&[
        // BGEZ rs=3, off=0x10 (opcode 1)
        0x0461_0010,
        // TEQI rs=2, imm=-1 (opcode 12)
        (1 << 26) | (2 << 21) | (12 << 16) | 0xffff,
        // BREAK (opcode 13); the code field spans bits 25-6
        0x040d_0a80,
    ]);
    assert_eq!(decoded[0], Instruction::BGEZ { rs: 3, off: 0x10 });
    assert_eq!(decoded[1], Instruction::TEQI { rs: 2, imm: -1 });
    assert_eq!(decoded[2], Instruction::BREAK { code: 0x342a });
}

#[test]
fn test_decode_normal_family() {
    let decoded = parse_instructions(&[
        // ADDI rt=2, rs=1, imm=-5 (opcode 8)
        0x2022_fffb,
        // ADDIU rt=4, rs=3, imm=1 (opcode 9)
        (9 << 26) | (3 << 21) | (4 << 16) | 1,
        // ORI rt=5, rs=6, imm=0x8000 zero-extended (opcode 13)
        (13 << 26) | (6 << 21) | (5 << 16) | 0x8000,
        // J target 0x123456 (opcode 2)
        0x0812_3456,
        // LUI rt=7, imm=0xabcd (opcode 15)
        (15 << 26) | (7 << 16) | 0xabcd,
        // LW rt=8, base=9, off=0x20 (opcode 35)
        (35 << 26) | (9 << 21) | (8 << 16) | 0x20,
        // SD rt=10, base=11, off=0xfff0 (opcode 63)
        (63 << 26) | (11 << 21) | (10 << 16) | 0xfff0,
    ]);
    assert_eq!(decoded[0], Instruction::ADDI { rt: 2, rs: 1, imm: -5 });
    assert_eq!(decoded[1], Instruction::ADDUI { rt: 4, rs: 3, imm: 1 });
    assert_eq!(decoded[2], Instruction::ORI { rt: 5, rs: 6, imm: 0x8000 });
    assert_eq!(decoded[3], Instruction::J { off: 0x12_3456 });
    assert_eq!(decoded[4], Instruction::LUI { rt: 7, imm: 0xabcd });
    assert_eq!(decoded[5], Instruction::LW { rt: 8, off: 0x20, base: 9 });
    assert_eq!(decoded[6], Instruction::SD { rt: 10, off: 0xfff0, base: 11 });
}

#[test]
fn test_decode_is_pure() {
    let first = parse_instructions(&[0x0022_1820, 0x2022_fffb]);
    let second = parse_instructions(&[0x0022_1820, 0x2022_fffb]);
    assert_eq!(first, second);
}
