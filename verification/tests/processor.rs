use emotion_engine::cpu::{Cpu, Exception};
use emotion_engine::instructions::Instruction;
use emotion_engine::memory::MemoryError;

fn make_cpu_with_program(pc: u32, words: &[u32]) -> Cpu {
    let mut cpu = Cpu::new(&vec![0u8; 4 * 1024 * 1024], pc);
    let mut bytes = Vec::new();
    for word in words {
        bytes.extend_from_slice(&word.to_le_bytes());
    }
    cpu.memory.write_address(pc, &bytes).unwrap();
    cpu
}

#[test]
fn test_fetch_decodes_memory_word() {
    let cpu = make_cpu_with_program(0x1000, &[0x0022_1820]);
    assert_eq!(
        cpu.fetch_instruction(0x1000),
        Ok(Instruction::ADD { rd: 3, rs: 1, rt: 2 })
    );
    assert_eq!(
        cpu.fetch_instruction(0x5000_0000),
        Err(MemoryError::UnmappedAddress)
    );
}

#[test]
fn test_step_executes_and_advances() {
    let mut cpu = make_cpu_with_program(0x1000, &[0x0022_1820]);
    cpu.write_ee_register_32(1, 1);
    cpu.write_ee_register_32(2, 2);

    assert_eq!(cpu.step(), Ok(()));
    assert_eq!(cpu.read_ee_register_32(3), 3);
    assert_eq!(cpu.pc, 0x1004);
}

#[test]
fn test_step_at_unmapped_pc_is_address_error() {
    let mut cpu = Cpu::new(&vec![0u8; 4 * 1024 * 1024], 0x5000_0000);
    assert_eq!(cpu.step(), Err(Exception::AddressError));
    assert_eq!(cpu.pc, 0x5000_0000);
}

#[test]
fn test_execute_runs_until_breakpoint() {
    // ADD r3 = r1 + r2, then BREAK with code 0x3400.
    let mut cpu = make_cpu_with_program(0, &[0x0022_1820, 0x040d_0000]);
    cpu.write_ee_register_32(1, 20);
    cpu.write_ee_register_32(2, 22);

    let raised = cpu.execute(0x0010_0000, 100);
    assert_eq!(raised, Some(Exception::Breakpoint(0x3400)));
    assert_eq!(cpu.read_ee_register_32(3), 42);
    // The stack pointer was seeded with the given address.
    assert_eq!(cpu.read_ee_register_64(29), 0x0010_0000);
    // The breakpoint left the program counter at the BREAK instruction.
    assert_eq!(cpu.pc, 4);
}

#[test]
fn test_execute_stops_at_step_budget() {
    // A block of no-operation words: nothing raises, the budget runs out.
    let mut cpu = make_cpu_with_program(0, &[0, 0, 0, 0]);
    assert_eq!(cpu.execute(0, 3), None);
    assert_eq!(cpu.pc, 12);
}
