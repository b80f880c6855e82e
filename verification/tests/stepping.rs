use lr35902::cpu::CPU;
use lr35902::instruction::{Instruction, RegisterTarget};
use lr35902::instruction_history::InstructionHistory;
use lr35902::machine::Fault;
use lr35902::memory::LoadError;

fn cpu_with(program: &[u8]) -> CPU {
    let mut image = vec![0u8; 0x100];
    image.extend_from_slice(program);
    CPU::initialize(&image).unwrap()
}

#[test]
fn processor_starts_after_the_boot_area() {
    let cpu = cpu_with(&[0x00]);
    assert_eq!(cpu.pc, 0x0100);
    assert_eq!(cpu.sp, 0xFFFE);
    assert_eq!(cpu.registers.get_af(), 0);
    assert_eq!(cpu.registers.get_bc(), 0);
    assert_eq!(cpu.registers.get_de(), 0);
    assert_eq!(cpu.registers.get_hl(), 0);
    assert!(!cpu.stopped);
    assert!(!cpu.master_interrupt_request);
    assert_eq!(cpu.nop_count, 0);
    assert!(cpu.instruction_history.iter().all(|entry| *entry == InstructionHistory::new()));
}

#[test]
fn processor_refuses_bad_images() {
    assert_eq!(CPU::initialize(&[]).err(), Some(LoadError::Empty));
    assert_eq!(CPU::initialize(&vec![0u8; 0x10001]).err(), Some(LoadError::TooLarge));
    assert!(CPU::initialize(&vec![0u8; 0x10000]).is_ok());
}

#[test]
fn blank_history_entry() {
    let entry = InstructionHistory::new();
    assert_eq!(entry.inst, Instruction::NOP());
    assert_eq!((entry.pc, entry.spi, entry.nops), (0, 0, 0));
}

#[test]
fn step_runs_one_instruction() {
    let mut cpu = cpu_with(&[0x3E, 0x81, 0x47]);
    assert_eq!(cpu.step(), Ok(2));
    assert_eq!(cpu.registers.a, 0x81);
    assert_eq!(cpu.pc, 0x0102);
    assert_eq!(cpu.step(), Ok(1));
    assert_eq!(cpu.registers.b, 0x81);
    assert_eq!(cpu.pc, 0x0103);
}

#[test]
fn prefix_costs_one_more_cycle() {
    let mut cpu = cpu_with(&[0xCB, 0xC7, 0xCB, 0x46]);
    assert_eq!(cpu.step(), Ok(2));
    assert_eq!(cpu.registers.a, 0x01);
    assert_eq!(cpu.pc, 0x0102);
    assert_eq!(cpu.step(), Ok(3));
    assert_eq!(cpu.pc, 0x0104);
}

#[test]
fn undefined_opcode_is_a_fault() {
    let mut cpu = cpu_with(&[0x76]);
    assert_eq!(cpu.step(), Err(Fault::UndefinedOpcode { opcode: 0x76, prefixed: false }));
    assert_eq!(cpu.pc, 0x0101);
    let mut cpu = cpu_with(&[0xD3]);
    assert_eq!(cpu.step(), Err(Fault::UndefinedOpcode { opcode: 0xD3, prefixed: false }));
}

#[test]
fn every_undefined_opcode_faults_in_a_step() {
    let undefined = [0x10u8, 0x76, 0xD3, 0xDB, 0xDD, 0xE3, 0xE4, 0xEB, 0xEC, 0xED, 0xF4, 0xFC, 0xFD];
    for opcode in undefined {
        let mut cpu = cpu_with(&[opcode]);
        assert_eq!(cpu.step(), Err(Fault::UndefinedOpcode { opcode, prefixed: false }));
        assert_eq!(cpu.nop_count, 0);
    }
}

#[test]
fn program_counter_in_the_last_bytes_is_a_fault() {
    let mut cpu = cpu_with(&[0xC3, 0xFD, 0xFF]);
    assert_eq!(cpu.step(), Err(Fault::ProgramCounterTooHigh));
    assert_eq!(cpu.pc, 0xFFFD);
    let mut cpu = cpu_with(&[0xC3, 0xFC, 0xFF]);
    assert_eq!(cpu.step(), Ok(4));
    assert_eq!(cpu.pc, 0xFFFC);
    assert_eq!(cpu.step(), Err(Fault::ProgramCounterTooHigh));
}

#[test]
fn stack_pointer_at_zero_is_a_fault() {
    let mut cpu = cpu_with(&[0x31, 0x00, 0x00]);
    assert_eq!(cpu.step(), Err(Fault::StackPointerTooHigh));
    assert_eq!(cpu.sp, 0x0000);
    let mut cpu = cpu_with(&[0x31, 0x01, 0x00]);
    assert_eq!(cpu.step(), Ok(3));
}

#[test]
fn program_counter_fault_comes_before_stack_pointer_fault() {
    let mut cpu = cpu_with(&[0xC3, 0xFE, 0xFF]);
    cpu.sp = 0;
    assert_eq!(cpu.step(), Err(Fault::ProgramCounterTooHigh));
}

#[test]
fn no_operations_are_counted_and_not_recorded() {
    let mut cpu = cpu_with(&[0x00, 0x00, 0x04]);
    assert_eq!(cpu.step(), Ok(1));
    assert_eq!(cpu.step(), Ok(1));
    assert_eq!(cpu.nop_count, 2);
    assert_eq!(cpu.instruction_history[0], InstructionHistory::new());
    assert_eq!(cpu.step(), Ok(1));
    assert_eq!(cpu.nop_count, 0);
    assert_eq!(
        cpu.instruction_history[0],
        InstructionHistory { inst: Instruction::INC(RegisterTarget::B), pc: 0x0103, spi: 0, nops: 2 }
    );
}

#[test]
fn history_keeps_the_newest_entry_first() {
    let mut cpu = cpu_with(&[0x04, 0x0C, 0xC5, 0x14]);
    for _ in 0..4 {
        assert!(cpu.step().is_ok());
    }
    let b = Instruction::INC(RegisterTarget::B);
    let c = Instruction::INC(RegisterTarget::C);
    let d = Instruction::INC(RegisterTarget::D);
    assert_eq!(cpu.instruction_history[0].inst, d);
    assert_eq!(cpu.instruction_history[0].spi, 1);
    assert_eq!(cpu.instruction_history[0].pc, 0x0104);
    assert_eq!(cpu.instruction_history[2].inst, c);
    assert_eq!(cpu.instruction_history[3].inst, b);
    assert_eq!(cpu.instruction_history[3].pc, 0x0101);
    assert_eq!(cpu.instruction_history[4], InstructionHistory::new());
    assert_eq!(cpu.instruction_history[98], InstructionHistory::new());
}

#[test]
fn history_drops_the_oldest_entry() {
    let mut cpu = cpu_with(&[0x04]);
    for count in 0..99u16 {
        cpu.pc = count;
        cpu.record(Instruction::INC(RegisterTarget::B));
    }
    assert_eq!(cpu.instruction_history[98].pc, 0);
    assert_eq!(cpu.instruction_history[0].pc, 98);
    cpu.pc = 0x0777;
    cpu.record(Instruction::DEC(RegisterTarget::B));
    assert_eq!(cpu.instruction_history[98].pc, 1);
    assert_eq!(cpu.instruction_history[1].pc, 98);
    assert_eq!(cpu.instruction_history[0].pc, 0x0777);
    assert_eq!(cpu.instruction_history[0].inst, Instruction::DEC(RegisterTarget::B));
}

#[test]
fn stack_depth_in_the_record_wraps_below_zero() {
    let mut cpu = cpu_with(&[0x04]);
    cpu.sp = 0xFFFF;
    cpu.record(Instruction::INC(RegisterTarget::B));
    assert_eq!(cpu.instruction_history[0].spi, u32::MAX);
    cpu.sp = 0xFFF0;
    cpu.record(Instruction::INC(RegisterTarget::B));
    assert_eq!(cpu.instruction_history[0].spi, 7);
    cpu.sp = 0x0000;
    cpu.record(Instruction::INC(RegisterTarget::B));
    assert_eq!(cpu.instruction_history[0].spi, 0x7FFF);
}
