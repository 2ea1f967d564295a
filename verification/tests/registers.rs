use emotion_engine::cpu::Cpu;
use emotion_engine::ee_arithmetic::ADD;

fn make_cpu() -> Cpu {
    Cpu::new(&vec![0u8; 4 * 1024 * 1024], 0)
}

#[test]
fn test_add_unsigned() {
    let mut cpu = make_cpu();

    let rd: u8 = 1;
    let rs: u8 = 2;
    let rt: u8 = 3;

    cpu.write_ee_register_32(rs, 1);
    cpu.write_ee_register_32(rt, 2);

    let _ = ADD(&mut cpu, rd, rs, rt);

    assert_eq!(cpu.read_ee_register_32(1), 3);
}

#[test]
fn test_register_zero_sink() {
    let mut cpu = make_cpu();

    cpu.write_ee_register(0, 0x1234_5678_9abc_def0_1122_3344_5566_7788);
    assert_eq!(cpu.read_ee_register(0), 0);
    assert_eq!(cpu.read_ee_register_64(0), 0);
    assert_eq!(cpu.read_ee_register_32(0), 0);

    cpu.write_ee_register_64(0, u64::MAX);
    assert_eq!(cpu.read_ee_register(0), 0);
    assert_eq!(cpu.read_ee_register_64(0), 0);
    assert_eq!(cpu.read_ee_register_32(0), 0);

    cpu.write_ee_register_32(0, u32::MAX);
    assert_eq!(cpu.read_ee_register(0), 0);
    assert_eq!(cpu.read_ee_register_64(0), 0);
    assert_eq!(cpu.read_ee_register_32(0), 0);
}

#[test]
fn test_narrow_writes_preserve_high_bits() {
    let mut cpu = make_cpu();

    cpu.write_ee_register(5, 0x1111_2222_3333_4444_5555_6666_7777_8888);
    assert_eq!(cpu.read_ee_register_64(5), 0x5555_6666_7777_8888);
    assert_eq!(cpu.read_ee_register_32(5), 0x7777_8888);

    cpu.write_ee_register_32(5, 0x9999_aaaa);
    assert_eq!(cpu.read_ee_register_32(5), 0x9999_aaaa);
    assert_eq!(cpu.read_ee_register_64(5), 0x5555_6666_9999_aaaa);
    assert_eq!(cpu.read_ee_register(5), 0x1111_2222_3333_4444_5555_6666_9999_aaaa);

    cpu.write_ee_register_64(5, 0xbbbb_cccc_dddd_eeee);
    assert_eq!(cpu.read_ee_register_64(5), 0xbbbb_cccc_dddd_eeee);
    assert_eq!(cpu.read_ee_register(5), 0x1111_2222_3333_4444_bbbb_cccc_dddd_eeee);
}

#[test]
fn test_new_cpu_state() {
    let cpu = Cpu::new(&vec![0u8; 4 * 1024 * 1024], 0xbfc0_0000);
    assert_eq!(cpu.pc, 0xbfc0_0000);
    assert_eq!(cpu.hi, 0);
    assert_eq!(cpu.lo, 0);
    assert_eq!(cpu.hi1, 0);
    assert_eq!(cpu.lo1, 0);
    assert_eq!(cpu.sa, 0);
    for register in 0..32 {
        assert_eq!(cpu.read_ee_register(register), 0);
    }
}
