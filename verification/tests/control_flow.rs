use lr35902::cpu::CPU;
use lr35902::instruction::{Conditional, DoubleRegisterTarget, Instruction, InvariantFunction};
use lr35902::registers::FlagsRegister;

fn cpu_at(pc: u16, bytes: &[u8]) -> CPU {
    let mut cpu = CPU::initialize(&[0u8]).unwrap();
    cpu.pc = pc;
    let mut address = pc;
    for byte in bytes {
        cpu.memory.write_byte(address, *byte);
        address = address.wrapping_add(1);
    }
    cpu
}

fn flags(zero: bool, carry: bool) -> FlagsRegister {
    FlagsRegister { zero, subtract: false, half_carry: false, carry }
}

#[test]
fn absolute_jump_taken_and_not_taken() {
    let mut cpu = cpu_at(0x0200, &[0x34, 0x12]);
    assert_eq!(cpu.execute(Instruction::JumpNN(Conditional::Unconditional)), 4);
    assert_eq!(cpu.pc, 0x1234);
    let mut cpu = cpu_at(0x0200, &[0x34, 0x12]);
    cpu.registers.f = flags(false, false);
    assert_eq!(cpu.execute(Instruction::JumpNN(Conditional::ZeroFlag)), 3);
    assert_eq!(cpu.pc, 0x0202);
    assert_eq!(cpu.execute(Instruction::JumpNN(Conditional::NotZeroFlag)), 4);
    assert_eq!(cpu.pc, 0x0000);
}

#[test]
fn conditions_read_zero_and_carry() {
    let mut cpu = cpu_at(0x0200, &[]);
    cpu.registers.f = flags(true, false);
    assert!(cpu.check_conditional(Conditional::ZeroFlag));
    assert!(!cpu.check_conditional(Conditional::NotZeroFlag));
    assert!(!cpu.check_conditional(Conditional::CarryFlag));
    assert!(cpu.check_conditional(Conditional::NotCarryFlag));
    assert!(cpu.check_conditional(Conditional::Unconditional));
    cpu.registers.f = flags(false, true);
    assert!(!cpu.check_conditional(Conditional::ZeroFlag));
    assert!(cpu.check_conditional(Conditional::NotZeroFlag));
    assert!(cpu.check_conditional(Conditional::CarryFlag));
    assert!(!cpu.check_conditional(Conditional::NotCarryFlag));
}

#[test]
fn jump_to_hl() {
    let mut cpu = cpu_at(0x0200, &[]);
    cpu.registers.set_hl(0xC123);
    assert_eq!(cpu.execute(Instruction::JumpHL()), 1);
    assert_eq!(cpu.pc, 0xC123);
}

#[test]
fn relative_jump_forward() {
    let mut cpu = cpu_at(0x0200, &[0x05]);
    assert_eq!(cpu.execute(Instruction::JumpRn(Conditional::Unconditional)), 3);
    assert_eq!(cpu.pc, 0x0206);
}

#[test]
fn relative_jump_backward() {
    let mut cpu = cpu_at(0x0200, &[0xFE]);
    assert_eq!(cpu.execute(Instruction::JumpRn(Conditional::Unconditional)), 3);
    assert_eq!(cpu.pc, 0x01FF);
    let mut cpu = cpu_at(0x0200, &[0x80]);
    assert_eq!(cpu.execute(Instruction::JumpRn(Conditional::Unconditional)), 3);
    assert_eq!(cpu.pc, 0x0181);
    let mut cpu = cpu_at(0x0200, &[0x7F]);
    assert_eq!(cpu.execute(Instruction::JumpRn(Conditional::Unconditional)), 3);
    assert_eq!(cpu.pc, 0x0280);
}

#[test]
fn relative_jump_for_every_displacement() {
    for displacement in 0..=255u8 {
        let mut cpu = cpu_at(0x4000, &[displacement]);
        assert_eq!(cpu.execute(Instruction::JumpRn(Conditional::Unconditional)), 3);
        let expected = (0x4001i32 + (displacement as i8) as i32) as u16;
        assert_eq!(cpu.pc, expected);
    }
}

#[test]
fn relative_jump_wraps_around_the_address_space() {
    let mut cpu = cpu_at(0x0000, &[0x80]);
    assert_eq!(cpu.execute(Instruction::JumpRn(Conditional::Unconditional)), 3);
    assert_eq!(cpu.pc, 0xFF81);
    let mut cpu = cpu_at(0xFFF0, &[0x7F]);
    assert_eq!(cpu.execute(Instruction::JumpRn(Conditional::Unconditional)), 3);
    assert_eq!(cpu.pc, 0x0070);
}

#[test]
fn relative_jump_not_taken() {
    let mut cpu = cpu_at(0x0200, &[0x05]);
    cpu.registers.f = flags(false, false);
    assert_eq!(cpu.execute(Instruction::JumpRn(Conditional::CarryFlag)), 2);
    assert_eq!(cpu.pc, 0x0201);
}

#[test]
fn call_pushes_the_return_address() {
    let mut cpu = cpu_at(0x0200, &[0x00, 0x30]);
    assert_eq!(cpu.execute(Instruction::CallNN(Conditional::Unconditional)), 6);
    assert_eq!(cpu.pc, 0x3000);
    assert_eq!(cpu.sp, 0xFFFC);
    assert_eq!(cpu.memory.read_byte(0xFFFD), 0x02);
    assert_eq!(cpu.memory.read_byte(0xFFFC), 0x02);
}

#[test]
fn call_not_taken_skips_the_operand() {
    let mut cpu = cpu_at(0x0200, &[0x00, 0x30]);
    cpu.registers.f = flags(true, false);
    assert_eq!(cpu.execute(Instruction::CallNN(Conditional::NotZeroFlag)), 3);
    assert_eq!(cpu.pc, 0x0202);
    assert_eq!(cpu.sp, 0xFFFE);
}

#[test]
fn call_and_return_are_inverse() {
    let mut cpu = cpu_at(0x0200, &[0x00, 0x30]);
    cpu.execute(Instruction::CallNN(Conditional::Unconditional));
    assert_eq!(cpu.execute(Instruction::Return(Conditional::Unconditional)), 4);
    assert_eq!(cpu.pc, 0x0202);
    assert_eq!(cpu.sp, 0xFFFE);
}

#[test]
fn conditional_return_cycles() {
    let mut cpu = cpu_at(0x0200, &[]);
    cpu.push(0x4567);
    cpu.registers.f = flags(false, true);
    assert_eq!(cpu.execute(Instruction::Return(Conditional::NotCarryFlag)), 2);
    assert_eq!(cpu.pc, 0x0200);
    assert_eq!(cpu.sp, 0xFFFC);
    assert_eq!(cpu.execute(Instruction::Return(Conditional::CarryFlag)), 5);
    assert_eq!(cpu.pc, 0x4567);
    assert_eq!(cpu.sp, 0xFFFE);
}

#[test]
fn taken_branches_cost_more_than_untaken() {
    let conditions = [
        Conditional::ZeroFlag,
        Conditional::NotZeroFlag,
        Conditional::CarryFlag,
        Conditional::NotCarryFlag,
    ];
    for condition in conditions {
        for instruction in [
            Instruction::JumpNN(condition),
            Instruction::JumpRn(condition),
            Instruction::CallNN(condition),
            Instruction::Return(condition),
        ] {
            let mut taken = 0;
            let mut untaken = 0;
            for (zero, carry) in [(false, false), (false, true), (true, false), (true, true)] {
                let mut cpu = cpu_at(0x0200, &[0x10, 0x20]);
                cpu.registers.f = flags(zero, carry);
                let holds = cpu.check_conditional(condition);
                let cycles = cpu.execute(instruction);
                if holds {
                    taken = cycles;
                } else {
                    untaken = cycles;
                }
            }
            assert!(taken > untaken, "{:?}", instruction);
        }
    }
}

#[test]
fn fixed_calls_go_to_their_targets() {
    let targets = [
        (InvariantFunction::F00, 0x0000u16),
        (InvariantFunction::F08, 0x0008),
        (InvariantFunction::F10, 0x0010),
        (InvariantFunction::F18, 0x0018),
        (InvariantFunction::F20, 0x0020),
        (InvariantFunction::F28, 0x0028),
        (InvariantFunction::F30, 0x0030),
        (InvariantFunction::F38, 0x0038),
    ];
    for (target, address) in targets {
        let mut cpu = cpu_at(0x1234, &[]);
        assert_eq!(cpu.deref_invariant_function(target), address);
        assert_eq!(cpu.execute(Instruction::CallI(target)), 4);
        assert_eq!(cpu.pc, address);
        assert_eq!(cpu.sp, 0xFFFC);
        assert_eq!(cpu.memory.read_byte(0xFFFD), 0x12);
        assert_eq!(cpu.memory.read_byte(0xFFFC), 0x34);
    }
}

#[test]
fn call_primitive_pushes_and_jumps() {
    let mut cpu = cpu_at(0xABCD, &[]);
    cpu.call(0x0040);
    assert_eq!(cpu.pc, 0x0040);
    assert_eq!(cpu.sp, 0xFFFC);
    assert_eq!(cpu.pop(), 0xABCD);
}

#[test]
fn push_writes_upper_byte_first_and_below() {
    let mut cpu = cpu_at(0x0200, &[]);
    cpu.sp = 0xD000;
    cpu.push(0xBEEF);
    assert_eq!(cpu.sp, 0xCFFE);
    assert_eq!(cpu.memory.read_byte(0xCFFF), 0xBE);
    assert_eq!(cpu.memory.read_byte(0xCFFE), 0xEF);
}

#[test]
fn pop_reads_lower_byte_first_and_moves_up() {
    let mut cpu = cpu_at(0x0200, &[]);
    cpu.sp = 0x9000;
    cpu.memory.write_byte(0x9000, 0x22);
    cpu.memory.write_byte(0x9001, 0x11);
    assert_eq!(cpu.pop(), 0x1122);
    assert_eq!(cpu.sp, 0x9002);
}

#[test]
fn push_then_pop_gives_the_word_back() {
    let pointers = [
        0xFFFEu16, 0x0000, 0x0001, 0x0002, 0xFFFF, 0xC002, 0xE002, 0xDE01, 0xFE01, 0x8000, 0xFF04,
        0xFF07,
    ];
    let values = [0x0000u16, 0x0001, 0x00FF, 0x0100, 0x1234, 0x8000, 0xABCD, 0xFF00, 0xFFFF];
    for sp in pointers {
        for value in values {
            let mut cpu = cpu_at(0x0200, &[]);
            cpu.sp = sp;
            cpu.push(value);
            assert_eq!(cpu.sp, sp.wrapping_sub(2));
            assert_eq!(cpu.pop(), value, "sp {:#06x}", sp);
            assert_eq!(cpu.sp, sp);
        }
    }
}

#[test]
fn pushes_and_pops_are_last_in_first_out() {
    let mut cpu = cpu_at(0x0200, &[]);
    cpu.push(0x1111);
    cpu.push(0x2222);
    cpu.push(0x3333);
    assert_eq!(cpu.pop(), 0x3333);
    assert_eq!(cpu.pop(), 0x2222);
    assert_eq!(cpu.pop(), 0x1111);
    assert_eq!(cpu.sp, 0xFFFE);
}

#[test]
fn push_across_the_divider_stores_zero() {
    let mut cpu = cpu_at(0x0200, &[]);
    cpu.sp = 0xFF05;
    cpu.push(0x1234);
    assert_eq!(cpu.pop(), 0x0034);
    cpu.sp = 0xFF06;
    cpu.push(0x1234);
    assert_eq!(cpu.pop(), 0x1200);
}

#[test]
fn push_and_pop_pair_instructions() {
    let mut cpu = cpu_at(0x0200, &[]);
    cpu.registers.set_bc(0x1234);
    assert_eq!(cpu.execute(Instruction::PushRR(DoubleRegisterTarget::BC)), 4);
    assert_eq!(cpu.sp, 0xFFFC);
    assert_eq!(cpu.execute(Instruction::PopRR(DoubleRegisterTarget::DE)), 3);
    assert_eq!(cpu.registers.get_de(), 0x1234);
    assert_eq!(cpu.sp, 0xFFFE);
}

#[test]
fn pop_into_af_drops_the_lower_nibble() {
    let mut cpu = cpu_at(0x0200, &[]);
    cpu.push(0x12FF);
    assert_eq!(cpu.execute(Instruction::PopRR(DoubleRegisterTarget::AF)), 3);
    assert_eq!(cpu.registers.get_af(), 0x12F0);
    assert_eq!(cpu.registers.a, 0x12);
    assert!(cpu.registers.f.zero && cpu.registers.f.subtract);
    assert!(cpu.registers.f.half_carry && cpu.registers.f.carry);
}

#[test]
fn no_operation_and_disable_interrupts_change_nothing() {
    let mut cpu = cpu_at(0x0200, &[]);
    cpu.registers.set_af(0x12F0);
    cpu.master_interrupt_request = true;
    assert_eq!(cpu.execute(Instruction::NOP()), 1);
    assert_eq!(cpu.execute(Instruction::DI()), 1);
    assert_eq!(cpu.registers.get_af(), 0x12F0);
    assert_eq!((cpu.pc, cpu.sp), (0x0200, 0xFFFE));
    assert!(cpu.master_interrupt_request);
}

#[test]
fn enable_interrupts_sets_the_request() {
    let mut cpu = cpu_at(0x0200, &[]);
    cpu.registers.set_af(0x12F0);
    assert_eq!(cpu.execute(Instruction::EI()), 1);
    assert!(cpu.master_interrupt_request);
    assert_eq!(cpu.registers.get_af(), 0x12F0);
    assert_eq!((cpu.pc, cpu.sp), (0x0200, 0xFFFE));
    assert_eq!(cpu.execute(Instruction::EI()), 1);
    assert!(cpu.master_interrupt_request);
}
