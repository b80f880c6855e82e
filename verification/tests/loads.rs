use lr35902::cpu::CPU;
use lr35902::instruction::{DoubleRegisterTarget, Instruction, PostOp, RegisterTarget};
use lr35902::registers::FlagsRegister;

fn cpu_at(pc: u16, bytes: &[u8]) -> CPU {
    let mut cpu = CPU::initialize(&[0u8]).unwrap();
    cpu.pc = pc;
    let mut address = pc;
    for byte in bytes {
        cpu.memory.write_byte(address, *byte);
        address = address.wrapping_add(1);
    }
    cpu
}

fn flags(zero: bool, subtract: bool, half_carry: bool, carry: bool) -> FlagsRegister {
    FlagsRegister { zero, subtract, half_carry, carry }
}

#[test]
fn register_targets_read_and_write_each_register() {
    let mut cpu = cpu_at(0x0200, &[]);
    let targets = [
        RegisterTarget::A,
        RegisterTarget::B,
        RegisterTarget::C,
        RegisterTarget::D,
        RegisterTarget::E,
        RegisterTarget::H,
        RegisterTarget::L,
    ];
    for (index, target) in targets.iter().enumerate() {
        cpu.set_register_target(*target, 0x10 + index as u8);
    }
    let r = cpu.registers;
    assert_eq!((r.a, r.b, r.c, r.d, r.e, r.h, r.l), (0x10, 0x11, 0x12, 0x13, 0x14, 0x15, 0x16));
    for (index, target) in targets.iter().enumerate() {
        assert_eq!(cpu.get_register_target(*target), 0x10 + index as u8);
    }
}

#[test]
fn pair_targets_read_and_write_each_pair() {
    let mut cpu = cpu_at(0x0200, &[]);
    cpu.set_double_register_target(DoubleRegisterTarget::AF, 0x12F0);
    cpu.set_double_register_target(DoubleRegisterTarget::BC, 0x3456);
    cpu.set_double_register_target(DoubleRegisterTarget::DE, 0x789A);
    cpu.set_double_register_target(DoubleRegisterTarget::HL, 0xBCDE);
    assert_eq!(cpu.get_double_register_target(DoubleRegisterTarget::AF), 0x12F0);
    assert_eq!(cpu.get_double_register_target(DoubleRegisterTarget::BC), 0x3456);
    assert_eq!(cpu.get_double_register_target(DoubleRegisterTarget::DE), 0x789A);
    assert_eq!(cpu.get_double_register_target(DoubleRegisterTarget::HL), 0xBCDE);
    assert_eq!(cpu.registers.h, 0xBC);
}

#[test]
fn memory_targets_go_through_the_pair() {
    let mut cpu = cpu_at(0x0200, &[]);
    cpu.registers.set_bc(0x9000);
    cpu.registers.set_de(0xC010);
    cpu.set_memory_target(DoubleRegisterTarget::BC, 0x42);
    cpu.set_memory_target(DoubleRegisterTarget::DE, 0x43);
    assert_eq!(cpu.memory.read_byte(0x9000), 0x42);
    assert_eq!(cpu.memory.read_byte(0xC010), 0x43);
    assert_eq!(cpu.memory.read_byte(0xE010), 0x43);
    assert_eq!(cpu.get_memory_target(DoubleRegisterTarget::BC), 0x42);
    assert_eq!(cpu.get_memory_target(DoubleRegisterTarget::DE), 0x43);
}

#[test]
fn immediates_are_read_at_the_program_counter() {
    let mut cpu = cpu_at(0x0200, &[0xAA, 0x34, 0x12]);
    assert_eq!(cpu.get_n(), 0xAA);
    assert_eq!(cpu.pc, 0x0201);
    assert_eq!(cpu.get_nn(), 0x1234);
    assert_eq!(cpu.pc, 0x0203);
}

#[test]
fn immediates_wrap_at_the_end_of_memory() {
    let mut cpu = cpu_at(0xFFFF, &[0x34, 0x12]);
    assert_eq!(cpu.get_nn(), 0x1234);
    assert_eq!(cpu.pc, 0x0001);
}

#[test]
fn load_register_from_register_and_immediate() {
    let mut cpu = cpu_at(0x0200, &[0x77]);
    cpu.registers.c = 0x55;
    assert_eq!(cpu.execute(Instruction::LoadRR(RegisterTarget::B, RegisterTarget::C)), 1);
    assert_eq!(cpu.registers.b, 0x55);
    assert_eq!(cpu.execute(Instruction::LoadRN(RegisterTarget::E)), 2);
    assert_eq!(cpu.registers.e, 0x77);
    assert_eq!(cpu.pc, 0x0201);
}

#[test]
fn load_from_memory_with_post_operations() {
    let mut cpu = cpu_at(0x0200, &[]);
    cpu.memory.write_byte(0x9000, 0x11);
    cpu.memory.write_byte(0x9001, 0x22);
    cpu.registers.set_hl(0x9000);
    let hl = DoubleRegisterTarget::HL;
    assert_eq!(cpu.execute(Instruction::LoadRMem(RegisterTarget::A, hl, PostOp::Increment)), 2);
    assert_eq!(cpu.registers.a, 0x11);
    assert_eq!(cpu.registers.get_hl(), 0x9001);
    assert_eq!(cpu.execute(Instruction::LoadRMem(RegisterTarget::B, hl, PostOp::Decrement)), 2);
    assert_eq!(cpu.registers.b, 0x22);
    assert_eq!(cpu.registers.get_hl(), 0x9000);
    assert_eq!(cpu.execute(Instruction::LoadRMem(RegisterTarget::C, hl, PostOp::Nop)), 2);
    assert_eq!(cpu.registers.c, 0x11);
    assert_eq!(cpu.registers.get_hl(), 0x9000);
}

#[test]
fn post_operations_wrap_and_keep_flags() {
    let mut cpu = cpu_at(0x0200, &[]);
    cpu.registers.f = flags(true, true, true, true);
    cpu.registers.set_hl(0xFFFF);
    cpu.do_post_op(DoubleRegisterTarget::HL, PostOp::Increment);
    assert_eq!(cpu.registers.get_hl(), 0x0000);
    cpu.do_post_op(DoubleRegisterTarget::HL, PostOp::Decrement);
    assert_eq!(cpu.registers.get_hl(), 0xFFFF);
    cpu.do_post_op(DoubleRegisterTarget::HL, PostOp::Nop);
    assert_eq!(cpu.registers.get_hl(), 0xFFFF);
    assert_eq!(cpu.registers.f, flags(true, true, true, true));
}

#[test]
fn store_to_memory_with_post_operations() {
    let mut cpu = cpu_at(0x0200, &[0x99]);
    cpu.registers.a = 0x5A;
    cpu.registers.set_hl(0x9000);
    let hl = DoubleRegisterTarget::HL;
    assert_eq!(cpu.execute(Instruction::LoadMemR(hl, RegisterTarget::A, PostOp::Increment)), 2);
    assert_eq!(cpu.memory.read_byte(0x9000), 0x5A);
    assert_eq!(cpu.registers.get_hl(), 0x9001);
    assert_eq!(cpu.execute(Instruction::LoadMemR(hl, RegisterTarget::A, PostOp::Decrement)), 2);
    assert_eq!(cpu.memory.read_byte(0x9001), 0x5A);
    assert_eq!(cpu.registers.get_hl(), 0x9000);
    assert_eq!(cpu.execute(Instruction::LoadMemN(hl)), 3);
    assert_eq!(cpu.memory.read_byte(0x9000), 0x99);
    assert_eq!(cpu.pc, 0x0201);
}

#[test]
fn load_and_store_at_an_immediate_address() {
    let mut cpu = cpu_at(0x0200, &[0x00, 0x90, 0x01, 0x90]);
    cpu.memory.write_byte(0x9000, 0x3C);
    assert_eq!(cpu.execute(Instruction::LoadRNN(RegisterTarget::A)), 4);
    assert_eq!(cpu.registers.a, 0x3C);
    assert_eq!(cpu.pc, 0x0202);
    assert_eq!(cpu.execute(Instruction::LoadNNR(RegisterTarget::A)), 4);
    assert_eq!(cpu.memory.read_byte(0x9001), 0x3C);
    assert_eq!(cpu.pc, 0x0204);
}

#[test]
fn high_page_loads_and_stores() {
    let mut cpu = cpu_at(0x0200, &[0x80, 0x81]);
    cpu.registers.a = 0x77;
    cpu.registers.c = 0x90;
    assert_eq!(cpu.execute(Instruction::LoadHighRR(RegisterTarget::C, RegisterTarget::A)), 2);
    assert_eq!(cpu.memory.read_byte(0xFF90), 0x77);
    cpu.registers.a = 0;
    assert_eq!(cpu.execute(Instruction::LoadRHighR(RegisterTarget::A, RegisterTarget::C)), 2);
    assert_eq!(cpu.registers.a, 0x77);
    assert_eq!(cpu.execute(Instruction::LoadHighNR(RegisterTarget::A)), 3);
    assert_eq!(cpu.memory.read_byte(0xFF80), 0x77);
    cpu.memory.write_byte(0xFF81, 0x66);
    assert_eq!(cpu.execute(Instruction::LoadRHighN(RegisterTarget::B)), 3);
    assert_eq!(cpu.registers.b, 0x66);
    assert_eq!(cpu.pc, 0x0202);
}

#[test]
fn high_page_store_to_the_divider_resets_it() {
    let mut cpu = cpu_at(0x0200, &[0x04]);
    cpu.memory.increment_div(9);
    cpu.registers.a = 0x77;
    assert_eq!(cpu.execute(Instruction::LoadHighNR(RegisterTarget::A)), 3);
    assert_eq!(cpu.memory.read_byte(0xFF04), 0x00);
}

#[test]
fn word_loads() {
    let mut cpu = cpu_at(0x0200, &[0x34, 0x12, 0xF0, 0xDF]);
    assert_eq!(cpu.execute(Instruction::LoadRRNN(DoubleRegisterTarget::DE)), 3);
    assert_eq!(cpu.registers.get_de(), 0x1234);
    assert_eq!(cpu.execute(Instruction::LoadSPNN()), 3);
    assert_eq!(cpu.sp, 0xDFF0);
    assert_eq!(cpu.pc, 0x0204);
    cpu.registers.set_hl(0xC100);
    assert_eq!(cpu.execute(Instruction::LoadSPRR(DoubleRegisterTarget::HL)), 2);
    assert_eq!(cpu.sp, 0xC100);
}

#[test]
fn store_stack_pointer_writes_lower_byte_and_zero() {
    let mut cpu = cpu_at(0x0200, &[0x00, 0x90]);
    cpu.sp = 0xABCD;
    cpu.memory.write_byte(0x9001, 0xEE);
    assert_eq!(cpu.execute(Instruction::LoadNNSP()), 5);
    assert_eq!(cpu.memory.read_byte(0x9000), 0xCD);
    assert_eq!(cpu.memory.read_byte(0x9001), 0x00);
    assert_eq!(cpu.pc, 0x0202);
    assert_eq!(cpu.sp, 0xABCD);
}

#[test]
fn pair_from_stack_pointer_plus_offset() {
    let mut cpu = cpu_at(0x0200, &[0x08, 0xFE]);
    cpu.sp = 0xFFF8;
    cpu.registers.f = flags(true, true, false, false);
    assert_eq!(cpu.execute(Instruction::LoadRRSPn(DoubleRegisterTarget::HL)), 3);
    assert_eq!(cpu.registers.get_hl(), 0x0000);
    assert_eq!(cpu.sp, 0xFFF8);
    assert_eq!(cpu.registers.f, flags(false, false, true, true));
    cpu.sp = 0x0105;
    assert_eq!(cpu.execute(Instruction::LoadRRSPn(DoubleRegisterTarget::HL)), 3);
    assert_eq!(cpu.registers.get_hl(), 0x0103);
    assert_eq!(cpu.registers.f, flags(false, false, true, true));
    assert_eq!(cpu.pc, 0x0202);
}

#[test]
fn stack_pointer_plus_offset() {
    let mut cpu = cpu_at(0x0200, &[0x01, 0xFF, 0x80]);
    cpu.sp = 0x1000;
    cpu.registers.f = flags(true, true, true, true);
    assert_eq!(cpu.execute(Instruction::ADDSPn()), 4);
    assert_eq!(cpu.sp, 0x1001);
    assert_eq!(cpu.registers.f, flags(false, false, false, false));
    assert_eq!(cpu.execute(Instruction::ADDSPn()), 4);
    assert_eq!(cpu.sp, 0x1000);
    assert_eq!(cpu.registers.f, flags(false, false, true, true));
    cpu.sp = 0x0000;
    assert_eq!(cpu.execute(Instruction::ADDSPn()), 4);
    assert_eq!(cpu.sp, 0xFF80);
    assert_eq!(cpu.registers.f, flags(false, false, false, false));
}
