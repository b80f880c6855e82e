//! The execution engine: fetches, decodes and executes one instruction at a
//! time on its registers and its address space.

use vstd::prelude::*;
use crate::alu::{
    add_bytes, add_flags, clear_bit, decimal_adjust, difference, displace, fold_nibbles,
    logic_flags, shift_flags, shift_left, shift_right, sub_bytes, sub_flags, sum,
};
use crate::instruction::{
    Conditional, DoubleRegisterTarget, Instruction, InvariantFunction, PostOp, RegisterTarget,
    ShiftOp,
};
use crate::instruction_history::InstructionHistory;
use crate::machine::{Fault, Machine, HISTORY_SIZE};
use crate::memory::{loaded, LoadError, Memory};
use crate::registers::{FlagsRegister, Registers};
use crate::word::{join, low_byte, lower, upper};

verus! {

/// The processor with its address space.
#[allow(clippy::upper_case_acronyms)]
pub struct CPU {
    pub registers: Registers,
    /// The program counter: the address of the next byte to fetch.
    pub pc: u16,
    /// The stack pointer: the address of the word on top of the stack.
    pub sp: u16,
    pub memory: Memory,
    /// Set while the processor is stopped; the divider then stands still.
    pub stopped: bool,
    /// Set when the program has asked for interrupts to be enabled.
    pub master_interrupt_request: bool,
    /// The no-operations run since the last recorded instruction.
    pub nop_count: usize,
    /// The record of executed instructions, newest first.
    pub instruction_history: [InstructionHistory; 99],
}

impl View for CPU {
    type V = Machine;

    open spec fn view(&self) -> Machine {
        Machine {
            registers: self.registers,
            pc: self.pc,
            sp: self.sp,
            memory: self.memory@,
            stopped: self.stopped,
            master_interrupt_request: self.master_interrupt_request,
            nop_count: self.nop_count,
            history: self.instruction_history@,
        }
    }
}

impl Machine {
    /// The state of a processor that starts on the given address space:
    /// registers and flags cleared, the program counter at 0x0100, the stack
    /// pointer at 0xFFFE, and a blank record.
    pub open spec fn initial(memory: Seq<u8>) -> Machine {
        Machine {
            registers: Registers::zeroed(),
            pc: 0x0100,
            sp: 0xFFFE,
            memory,
            stopped: false,
            master_interrupt_request: false,
            nop_count: 0,
            history: Seq::new(99, |i: int| InstructionHistory::blank()),
        }
    }
}

impl CPU {
    /// The state of a processor always has its full sizes.
    pub proof fn lemma_wf(&self)
        ensures
            self@.wf(),
    {
        self.memory.lemma_size();
    }

    /// Builds a processor whose address space holds the image from address
    /// 0 on. An empty image and one larger than the address space are
    /// refused.
    pub fn initialize(image: &[u8]) -> (result: Result<CPU, LoadError>)
        ensures
            image@.len() == 0 ==> result == Err::<CPU, LoadError>(LoadError::Empty),
            image@.len() > 0x10000 ==> result == Err::<CPU, LoadError>(LoadError::TooLarge),
            0 < image@.len() <= 0x10000 ==> result.is_ok() && result.unwrap()@ == Machine::initial(
                loaded(image@),
            ),
    {
        match Memory::initialize(image) {
            Err(error) => Err(error),
            Ok(memory) => {
                let blank = InstructionHistory::new();
                let cpu = CPU {
                    registers: Registers::initialize(),
                    pc: 0x0100,
                    sp: 0xFFFE,
                    memory,
                    stopped: false,
                    master_interrupt_request: false,
                    nop_count: 0,
                    instruction_history: [blank;99],
                };
                assert(cpu@.history =~= Machine::initial(loaded(image@)).history);
                Ok(cpu)
            },
        }
    }

    /// Reads a register.
    pub fn get_register_target(&self, target: RegisterTarget) -> (value: u8)
        ensures
            value == self@.register(target),
    {
        match target {
            RegisterTarget::A => self.registers.a,
            RegisterTarget::B => self.registers.b,
            RegisterTarget::C => self.registers.c,
            RegisterTarget::D => self.registers.d,
            RegisterTarget::E => self.registers.e,
            RegisterTarget::H => self.registers.h,
            RegisterTarget::L => self.registers.l,
        }
    }

    /// Sets a register.
    pub fn set_register_target(&mut self, target: RegisterTarget, value: u8)
        ensures
            final(self)@ == old(self)@.with_register(target, value),
    {
        match target {
            RegisterTarget::A => {
                self.registers.a = value;
            },
            RegisterTarget::B => {
                self.registers.b = value;
            },
            RegisterTarget::C => {
                self.registers.c = value;
            },
            RegisterTarget::D => {
                self.registers.d = value;
            },
            RegisterTarget::E => {
                self.registers.e = value;
            },
            RegisterTarget::H => {
                self.registers.h = value;
            },
            RegisterTarget::L => {
                self.registers.l = value;
            },
        }
    }

    /// Reads a register pair.
    pub fn get_double_register_target(&self, target: DoubleRegisterTarget) -> (value: u16)
        ensures
            value == self@.pair(target),
    {
        match target {
            DoubleRegisterTarget::AF => self.registers.get_af(),
            DoubleRegisterTarget::BC => self.registers.get_bc(),
            DoubleRegisterTarget::DE => self.registers.get_de(),
            DoubleRegisterTarget::HL => self.registers.get_hl(),
        }
    }

    /// Sets a register pair.
    pub fn set_double_register_target(&mut self, target: DoubleRegisterTarget, value: u16)
        ensures
            final(self)@ == old(self)@.with_pair(target, value),
    {
        match target {
            DoubleRegisterTarget::AF => {
                self.registers.set_af(value);
            },
            DoubleRegisterTarget::BC => {
                self.registers.set_bc(value);
            },
            DoubleRegisterTarget::DE => {
                self.registers.set_de(value);
            },
            DoubleRegisterTarget::HL => {
                self.registers.set_hl(value);
            },
        }
    }

    /// Reads the byte that a register pair points at.
    pub fn get_memory_target(&self, target: DoubleRegisterTarget) -> (value: u8)
        ensures
            value == self@.pointee(target),
    {
        let address = self.get_double_register_target(target);
        self.memory.read_byte(address)
    }

    /// Writes a byte where a register pair points.
    pub fn set_memory_target(&mut self, target: DoubleRegisterTarget, value: u8)
        ensures
            final(self)@ == old(self)@.with_pointee(target, value),
    {
        let address = self.get_double_register_target(target);
        self.memory.write_byte(address, value);
    }

    /// Reads the byte at the program counter and moves the program counter
    /// past it.
    pub fn get_n(&mut self) -> (data: u8)
        ensures
            data == old(self)@.immediate(),
            final(self)@ == old(self)@.skip(1),
    {
        let data: u8 = self.memory.read_byte(self.pc);
        self.pc = self.pc.wrapping_add(1);
        data
    }

    /// Reads the word at the program counter, lower byte first, and moves
    /// the program counter past it.
    pub fn get_nn(&mut self) -> (data: u16)
        ensures
            data == old(self)@.immediate_word(),
            final(self)@ == old(self)@.skip(2),
    {
        let lsb: u8 = self.memory.read_byte(self.pc);
        self.pc = self.pc.wrapping_add(1);
        let msb: u8 = self.memory.read_byte(self.pc);
        self.pc = self.pc.wrapping_add(1);
        join(msb, lsb)
    }

    /// Adds two bytes and sets all four flags: zero exactly when the result
    /// is zero, carry exactly when the sum left the byte, half-carry exactly
    /// when the sum of the lower nibbles left the nibble; subtract is
    /// cleared.
    pub fn add(&mut self, base: u8, value: u8) -> (new_value: u8)
        ensures
            new_value == sum(base, value),
            final(self)@ == old(self)@.with_flags(add_flags(base, value)),
            final(self).registers.f.zero <==> new_value == 0,
            final(self).registers.f.carry <==> base + value > 255,
            final(self).registers.f.half_carry <==> (base & 0xF) + (value & 0xF) > 0xF,
            !final(self).registers.f.subtract,
    {
        let (new_value, did_overflow, half_carry) = add_bytes(base, value);
        if new_value == 0 {
            self.registers.flag_zero();
        } else {
            self.registers.clear_zero()
        }
        self.registers.clear_subtract();
        if did_overflow {
            self.registers.flag_carry();
        } else {
            self.registers.clear_carry()
        }
        if half_carry {
            self.registers.flag_half_carry();
        } else {
            self.registers.clear_half_carry()
        }
        new_value
    }

    /// Subtracts a byte from another and sets all four flags: zero exactly
    /// when the result is zero, carry exactly when the difference fell below
    /// zero, half-carry exactly when the difference of the lower nibbles
    /// did; subtract is set.
    pub fn sub(&mut self, base: u8, value: u8) -> (new_value: u8)
        ensures
            new_value == difference(base, value),
            final(self)@ == old(self)@.with_flags(sub_flags(base, value)),
            final(self).registers.f.zero <==> new_value == 0,
            final(self).registers.f.carry <==> base - value < 0,
            final(self).registers.f.half_carry <==> (base & 0xF) - (value & 0xF) < 0,
            final(self).registers.f.subtract,
    {
        let (new_value, did_overflow, half_carry) = sub_bytes(base, value);
        if new_value == 0 {
            self.registers.flag_zero();
        } else {
            self.registers.clear_zero()
        }
        self.registers.flag_subtract();
        if did_overflow {
            self.registers.flag_carry();
        } else {
            self.registers.clear_carry()
        }
        if half_carry {
            self.registers.flag_half_carry();
        } else {
            self.registers.clear_half_carry()
        }
        new_value
    }

    /// Bitwise and; sets zero by the result, sets half-carry, clears
    /// subtract and carry.
    pub fn logical_and(&mut self, base: u8, value: u8) -> (new_value: u8)
        ensures
            new_value == base & value,
            final(self)@ == old(self)@.with_flags(logic_flags(base & value, true)),
    {
        let new_value = base & value;
        if new_value == 0 {
            self.registers.flag_zero();
        } else {
            self.registers.clear_zero()
        }
        self.registers.clear_subtract();
        self.registers.flag_half_carry();
        self.registers.clear_carry();
        new_value
    }

    /// Bitwise exclusive or; sets zero by the result and clears the other
    /// flags.
    pub fn logical_xor(&mut self, base: u8, value: u8) -> (new_value: u8)
        ensures
            new_value == base ^ value,
            final(self)@ == old(self)@.with_flags(logic_flags(base ^ value, false)),
    {
        let new_value = base ^ value;
        if new_value == 0 {
            self.registers.flag_zero();
        } else {
            self.registers.clear_zero()
        }
        self.registers.clear_subtract();
        self.registers.clear_half_carry();
        self.registers.clear_carry();
        new_value
    }

    /// Bitwise or; sets zero by the result and clears the other flags.
    pub fn logical_or(&mut self, base: u8, value: u8) -> (new_value: u8)
        ensures
            new_value == base | value,
            final(self)@ == old(self)@.with_flags(logic_flags(base | value, false)),
    {
        let new_value = base | value;
        if new_value == 0 {
            self.registers.flag_zero();
        } else {
            self.registers.clear_zero()
        }
        self.registers.clear_subtract();
        self.registers.clear_half_carry();
        self.registers.clear_carry();
        new_value
    }

    /// Tells whether a condition holds of the flags.
    pub fn check_conditional(&self, conditional: Conditional) -> (taken: bool)
        ensures
            taken == self@.holds(conditional),
    {
        match conditional {
            Conditional::ZeroFlag => self.registers.get_zero() == 1,
            Conditional::NotZeroFlag => self.registers.get_zero() == 0,
            Conditional::CarryFlag => self.registers.get_carry() == 1,
            Conditional::NotCarryFlag => self.registers.get_carry() == 0,
            Conditional::Unconditional => true,
        }
    }

    /// The address of a fixed call target.
    pub fn deref_invariant_function(&self, function: InvariantFunction) -> (address: u16)
        ensures
            address == function.address(),
    {
        match function {
            InvariantFunction::F00 => 0x0000_u16,
            InvariantFunction::F08 => 0x0008_u16,
            InvariantFunction::F10 => 0x0010_u16,
            InvariantFunction::F18 => 0x0018_u16,
            InvariantFunction::F20 => 0x0020_u16,
            InvariantFunction::F28 => 0x0028_u16,
            InvariantFunction::F30 => 0x0030_u16,
            InvariantFunction::F38 => 0x0038_u16,
        }
    }

    /// Pushes a word: the upper byte first, then the lower byte, each just
    /// below the one before. The stack pointer wraps below zero.
    pub fn push(&mut self, value: u16)
        ensures
            final(self)@ == old(self)@.pushed(value),
    {
        self.sp = self.sp.wrapping_sub(1);
        self.memory.write_byte(self.sp, upper(value));
        self.sp = self.sp.wrapping_sub(1);
        self.memory.write_byte(self.sp, lower(value));
    }

    /// Pops a word: the lower byte first, then the upper byte, each just
    /// above the one before. The stack pointer wraps above 0xFFFF.
    pub fn pop(&mut self) -> (value: u16)
        ensures
            value == old(self)@.top(),
            final(self)@ == old(self)@.popped(),
    {
        let lsb = self.memory.read_byte(self.sp);
        self.sp = self.sp.wrapping_add(1);
        let msb = self.memory.read_byte(self.sp);
        self.sp = self.sp.wrapping_add(1);
        join(msb, lsb)
    }

    /// Pushes the program counter and continues at an address.
    pub fn call(&mut self, address: u16)
        ensures
            final(self)@ == old(self)@.called(address),
    {
        self.push(self.pc);
        self.pc = address;
    }

    /// Adjusts a register pair after a load through it. The flags are not
    /// touched.
    pub fn do_post_op(&mut self, target: DoubleRegisterTarget, post_op: PostOp)
        ensures
            final(self)@ == old(self)@.post(target, post_op),
    {
        let data = self.get_double_register_target(target);
        match post_op {
            PostOp::Nop => {},
            PostOp::Increment => {
                self.set_double_register_target(target, data.wrapping_add(1));
            },
            PostOp::Decrement => {
                self.set_double_register_target(target, data.wrapping_sub(1));
            },
        }
    }

    /// Sets the carry flag to a saved value.
    fn restore_carry(&mut self, carry: u8)
        ensures
            final(self)@ == old(self)@.with_flags(
                FlagsRegister { carry: carry == 1, ..old(self).registers.f },
            ),
    {
        if carry == 1 {
            self.registers.flag_carry();
        } else {
            self.registers.clear_carry();
        }
    }

    /// Sets carry and zero after a shift and clears the other two flags.
    fn set_shift_flags(&mut self, new_value: u8, carry_out: u8)
        ensures
            final(self)@ == old(self)@.with_flags(shift_flags(new_value, carry_out == 1)),
    {
        if carry_out == 1 {
            self.registers.flag_carry();
        } else {
            self.registers.clear_carry();
        }
        if new_value == 0 {
            self.registers.flag_zero();
        } else {
            self.registers.clear_zero();
        }
        self.registers.clear_subtract();
        self.registers.clear_half_carry();
    }

    /// Sets the flags after a bit test.
    fn set_bit_test_flags(&mut self, value: u8, bit_index: u8)
        requires
            bit_index <= 7,
        ensures
            final(self)@ == old(self)@.with_flags(old(self)@.bit_test_flags(value, bit_index)),
    {
        let bit_finder: u8 = 1 << bit_index;
        if value & bit_finder > 0 {
            self.registers.clear_zero();
        } else {
            self.registers.flag_zero();
        }
        self.registers.clear_subtract();
        self.registers.flag_half_carry();
    }

    /// Adds a word to HL as two chained additions of bytes.
    fn add_to_hl(&mut self, value: u16)
        ensures
            final(self)@ == old(self)@.add_to_hl(value),
    {
        let l = self.registers.l;
        let new_l = self.add(l, lower(value));
        self.registers.l = new_l;
        let carry: u8 = self.registers.get_carry();
        let h = self.registers.h;
        let new_h = self.add(h, upper(value).wrapping_add(carry));
        self.registers.h = new_h;
    }

    /// Sets the flags after a signed byte was added to the stack pointer.
    fn set_stack_offset_flags(&mut self, sp: u16, displacement: u8)
        ensures
            final(self)@ == old(self)@.with_flags(
                FlagsRegister {
                    zero: false,
                    subtract: false,
                    ..add_flags(low_byte(sp), displacement)
                },
            ),
    {
        let _ = self.add(lower(sp), displacement);
        self.registers.clear_zero();
        self.registers.clear_subtract();
    }

    /// Does nothing.
    fn nop(&mut self) -> (cycles: usize)
        ensures
            final(self)@ == old(self)@.nop().0,
            cycles == old(self)@.nop().1,
            1 <= cycles <= 6,
    {
        proof {
            reveal(Machine::nop);
        }
        return 1;
    }

    /// Adds a register to A; the flag asks for the carry to be added too.
    fn add_register(&mut self, target: RegisterTarget, include_carry: bool) -> (cycles: usize)
        ensures
            final(self)@ == old(self)@.add_register(target, include_carry).0,
            cycles == old(self)@.add_register(target, include_carry).1,
            1 <= cycles <= 6,
    {
        proof {
            reveal(Machine::add_register);
        }
        let carry: u8 = if include_carry { self.registers.get_carry() } else { 0 };
        let value: u8 = self.get_register_target(target).wrapping_add(carry);
        let a = self.registers.a;
        let new_value = self.add(a, value);
        self.registers.a = new_value;
        return 1;
    }

    /// Adds the byte that a pair points at to A, with or without the carry.
    fn add_memory(&mut self, target: DoubleRegisterTarget, include_carry: bool) -> (cycles: usize)
        ensures
            final(self)@ == old(self)@.add_memory(target, include_carry).0,
            cycles == old(self)@.add_memory(target, include_carry).1,
            1 <= cycles <= 6,
    {
        proof {
            reveal(Machine::add_memory);
        }
        let carry: u8 = if include_carry { self.registers.get_carry() } else { 0 };
        let value: u8 = self.get_memory_target(target).wrapping_add(carry);
        let a = self.registers.a;
        let new_value = self.add(a, value);
        self.registers.a = new_value;
        return 2;
    }

    /// Adds the immediate byte to A, with or without the carry.
    fn add_immediate(&mut self, include_carry: bool) -> (cycles: usize)
        ensures
            final(self)@ == old(self)@.add_immediate(include_carry).0,
            cycles == old(self)@.add_immediate(include_carry).1,
            1 <= cycles <= 6,
    {
        proof {
            reveal(Machine::add_immediate);
        }
        let carry: u8 = if include_carry { self.registers.get_carry() } else { 0 };
        let value: u8 = self.get_n().wrapping_add(carry);
        let a = self.registers.a;
        let new_value = self.add(a, value);
        self.registers.a = new_value;
        return 2;
    }

    /// Adds a pair to HL.
    fn add_pair(&mut self, source: DoubleRegisterTarget) -> (cycles: usize)
        ensures
            final(self)@ == old(self)@.add_pair(source).0,
            cycles == old(self)@.add_pair(source).1,
            1 <= cycles <= 6,
    {
        proof {
            reveal(Machine::add_pair);
        }
        let value: u16 = self.get_double_register_target(source);
        self.add_to_hl(value);
        return 2;
    }

    /// Adds the stack pointer to HL.
    fn add_stack_pointer(&mut self) -> (cycles: usize)
        ensures
            final(self)@ == old(self)@.add_stack_pointer().0,
            cycles == old(self)@.add_stack_pointer().1,
            1 <= cycles <= 6,
    {
        proof {
            reveal(Machine::add_stack_pointer);
        }
        let value: u16 = self.sp;
        self.add_to_hl(value);
        return 2;
    }

    /// Subtracts a register from A, with or without the carry.
    fn sub_register(&mut self, target: RegisterTarget, include_carry: bool) -> (cycles: usize)
        ensures
            final(self)@ == old(self)@.sub_register(target, include_carry).0,
            cycles == old(self)@.sub_register(target, include_carry).1,
            1 <= cycles <= 6,
    {
        proof {
            reveal(Machine::sub_register);
        }
        let carry: u8 = if include_carry { self.registers.get_carry() } else { 0 };
        let value: u8 = self.get_register_target(target).wrapping_add(carry);
        let a = self.registers.a;
        let new_value = self.sub(a, value);
        self.registers.a = new_value;
        return 1;
    }

    /// Subtracts the byte that a pair points at from A.
    fn sub_memory(&mut self, target: DoubleRegisterTarget, include_carry: bool) -> (cycles: usize)
        ensures
            final(self)@ == old(self)@.sub_memory(target, include_carry).0,
            cycles == old(self)@.sub_memory(target, include_carry).1,
            1 <= cycles <= 6,
    {
        proof {
            reveal(Machine::sub_memory);
        }
        let carry: u8 = if include_carry { self.registers.get_carry() } else { 0 };
        let value: u8 = self.get_memory_target(target).wrapping_add(carry);
        let a = self.registers.a;
        let new_value = self.sub(a, value);
        self.registers.a = new_value;
        return 2;
    }

    /// Subtracts the immediate byte from A.
    fn sub_immediate(&mut self, include_carry: bool) -> (cycles: usize)
        ensures
            final(self)@ == old(self)@.sub_immediate(include_carry).0,
            cycles == old(self)@.sub_immediate(include_carry).1,
            1 <= cycles <= 6,
    {
        proof {
            reveal(Machine::sub_immediate);
        }
        let carry: u8 = if include_carry { self.registers.get_carry() } else { 0 };
        let value: u8 = self.get_n().wrapping_add(carry);
        let a = self.registers.a;
        let new_value = self.sub(a, value);
        self.registers.a = new_value;
        return 2;
    }

    /// Compares a register with A.
    fn compare_register(&mut self, target: RegisterTarget) -> (cycles: usize)
        ensures
            final(self)@ == old(self)@.compare_register(target).0,
            cycles == old(self)@.compare_register(target).1,
            1 <= cycles <= 6,
    {
        proof {
            reveal(Machine::compare_register);
        }
        let value: u8 = self.get_register_target(target);
        let a = self.registers.a;
        let _ = self.sub(a, value);
        return 1;
    }

    /// Compares the byte that a pair points at with A.
    fn compare_memory(&mut self, target: DoubleRegisterTarget) -> (cycles: usize)
        ensures
            final(self)@ == old(self)@.compare_memory(target).0,
            cycles == old(self)@.compare_memory(target).1,
            1 <= cycles <= 6,
    {
        proof {
            reveal(Machine::compare_memory);
        }
        let value: u8 = self.get_memory_target(target);
        let a = self.registers.a;
        let _ = self.sub(a, value);
        return 2;
    }

    /// Compares the immediate byte with A.
    fn compare_immediate(&mut self) -> (cycles: usize)
        ensures
            final(self)@ == old(self)@.compare_immediate().0,
            cycles == old(self)@.compare_immediate().1,
            1 <= cycles <= 6,
    {
        proof {
            reveal(Machine::compare_immediate);
        }
        let value: u8 = self.get_n();
        let a = self.registers.a;
        let _ = self.sub(a, value);
        return 2;
    }

    /// Increments a register.
    fn increment_register(&mut self, target: RegisterTarget) -> (cycles: usize)
        ensures
            final(self)@ == old(self)@.increment_register(target).0,
            cycles == old(self)@.increment_register(target).1,
            1 <= cycles <= 6,
    {
        proof {
            reveal(Machine::increment_register);
        }
        let carry: u8 = self.registers.get_carry();
        let value: u8 = self.get_register_target(target);
        let new_value: u8 = self.add(value, 1);
        self.restore_carry(carry);
        self.set_register_target(target, new_value);
        return 1;
    }

    /// Increments the byte that a pair points at.
    fn increment_memory(&mut self, target: DoubleRegisterTarget) -> (cycles: usize)
        ensures
            final(self)@ == old(self)@.increment_memory(target).0,
            cycles == old(self)@.increment_memory(target).1,
            1 <= cycles <= 6,
    {
        proof {
            reveal(Machine::increment_memory);
        }
        let carry: u8 = self.registers.get_carry();
        let value: u8 = self.get_memory_target(target);
        let new_value: u8 = self.add(value, 1);
        self.restore_carry(carry);
        self.set_memory_target(target, new_value);
        return 3;
    }

    /// Increments a pair.
    fn increment_pair(&mut self, target: DoubleRegisterTarget) -> (cycles: usize)
        ensures
            final(self)@ == old(self)@.increment_pair(target).0,
            cycles == old(self)@.increment_pair(target).1,
            1 <= cycles <= 6,
    {
        proof {
            reveal(Machine::increment_pair);
        }
        let new_value = self.get_double_register_target(target).wrapping_add(1);
        self.set_double_register_target(target, new_value);
        return 2;
    }

    /// Increments the stack pointer.
    fn increment_stack_pointer(&mut self) -> (cycles: usize)
        ensures
            final(self)@ == old(self)@.increment_stack_pointer().0,
            cycles == old(self)@.increment_stack_pointer().1,
            1 <= cycles <= 6,
    {
        proof {
            reveal(Machine::increment_stack_pointer);
        }
        self.sp = self.sp.wrapping_add(1);
        return 2;
    }

    /// Decrements a register.
    fn decrement_register(&mut self, target: RegisterTarget) -> (cycles: usize)
        ensures
            final(self)@ == old(self)@.decrement_register(target).0,
            cycles == old(self)@.decrement_register(target).1,
            1 <= cycles <= 6,
    {
        proof {
            reveal(Machine::decrement_register);
        }
        let carry: u8 = self.registers.get_carry();
        let value: u8 = self.get_register_target(target);
        let new_value: u8 = self.sub(value, 1);
        self.restore_carry(carry);
        self.set_register_target(target, new_value);
        return 1;
    }

    /// Decrements the byte that a pair points at.
    fn decrement_memory(&mut self, target: DoubleRegisterTarget) -> (cycles: usize)
        ensures
            final(self)@ == old(self)@.decrement_memory(target).0,
            cycles == old(self)@.decrement_memory(target).1,
            1 <= cycles <= 6,
    {
        proof {
            reveal(Machine::decrement_memory);
        }
        let carry: u8 = self.registers.get_carry();
        let value: u8 = self.get_memory_target(target);
        let new_value: u8 = self.sub(value, 1);
        self.restore_carry(carry);
        self.set_memory_target(target, new_value);
        return 3;
    }

    /// Decrements a pair.
    fn decrement_pair(&mut self, target: DoubleRegisterTarget) -> (cycles: usize)
        ensures
            final(self)@ == old(self)@.decrement_pair(target).0,
            cycles == old(self)@.decrement_pair(target).1,
            1 <= cycles <= 6,
    {
        proof {
            reveal(Machine::decrement_pair);
        }
        let new_value = self.get_double_register_target(target).wrapping_sub(1);
        self.set_double_register_target(target, new_value);
        return 2;
    }

    /// Decrements the stack pointer.
    fn decrement_stack_pointer(&mut self) -> (cycles: usize)
        ensures
            final(self)@ == old(self)@.decrement_stack_pointer().0,
            cycles == old(self)@.decrement_stack_pointer().1,
            1 <= cycles <= 6,
    {
        proof {
            reveal(Machine::decrement_stack_pointer);
        }
        self.sp = self.sp.wrapping_sub(1);
        return 2;
    }

    /// Bitwise and of a register into A.
    fn and_register(&mut self, target: RegisterTarget) -> (cycles: usize)
        ensures
            final(self)@ == old(self)@.and_register(target).0,
            cycles == old(self)@.and_register(target).1,
            1 <= cycles <= 6,
    {
        proof {
            reveal(Machine::and_register);
        }
        let value: u8 = self.get_register_target(target);
        let a = self.registers.a;
        let new_value = self.logical_and(a, value);
        self.registers.a = new_value;
        return 1;
    }

    /// Bitwise and of the byte that a pair points at into A.
    fn and_memory(&mut self, target: DoubleRegisterTarget) -> (cycles: usize)
        ensures
            final(self)@ == old(self)@.and_memory(target).0,
            cycles == old(self)@.and_memory(target).1,
            1 <= cycles <= 6,
    {
        proof {
            reveal(Machine::and_memory);
        }
        let value: u8 = self.get_memory_target(target);
        let a = self.registers.a;
        let new_value = self.logical_and(a, value);
        self.registers.a = new_value;
        return 2;
    }

    /// Bitwise and of the immediate byte into A.
    fn and_immediate(&mut self) -> (cycles: usize)
        ensures
            final(self)@ == old(self)@.and_immediate().0,
            cycles == old(self)@.and_immediate().1,
            1 <= cycles <= 6,
    {
        proof {
            reveal(Machine::and_immediate);
        }
        let value: u8 = self.get_n();
        let a = self.registers.a;
        let new_value = self.logical_and(a, value);
        self.registers.a = new_value;
        return 2;
    }

    /// Bitwise exclusive or of a register into A.
    fn xor_register(&mut self, target: RegisterTarget) -> (cycles: usize)
        ensures
            final(self)@ == old(self)@.xor_register(target).0,
            cycles == old(self)@.xor_register(target).1,
            1 <= cycles <= 6,
    {
        proof {
            reveal(Machine::xor_register);
        }
        let value: u8 = self.get_register_target(target);
        let a = self.registers.a;
        let new_value = self.logical_xor(a, value);
        self.registers.a = new_value;
        return 1;
    }

    /// Bitwise exclusive or of the byte that a pair points at into A.
    fn xor_memory(&mut self, target: DoubleRegisterTarget) -> (cycles: usize)
        ensures
            final(self)@ == old(self)@.xor_memory(target).0,
            cycles == old(self)@.xor_memory(target).1,
            1 <= cycles <= 6,
    {
        proof {
            reveal(Machine::xor_memory);
        }
        let value: u8 = self.get_memory_target(target);
        let a = self.registers.a;
        let new_value = self.logical_xor(a, value);
        self.registers.a = new_value;
        return 2;
    }

    /// Bitwise exclusive or of the immediate byte into A.
    fn xor_immediate(&mut self) -> (cycles: usize)
        ensures
            final(self)@ == old(self)@.xor_immediate().0,
            cycles == old(self)@.xor_immediate().1,
            1 <= cycles <= 6,
    {
        proof {
            reveal(Machine::xor_immediate);
        }
        let value: u8 = self.get_n();
        let a = self.registers.a;
        let new_value = self.logical_xor(a, value);
        self.registers.a = new_value;
        return 2;
    }

    /// Bitwise or of a register into A.
    fn or_register(&mut self, target: RegisterTarget) -> (cycles: usize)
        ensures
            final(self)@ == old(self)@.or_register(target).0,
            cycles == old(self)@.or_register(target).1,
            1 <= cycles <= 6,
    {
        proof {
            reveal(Machine::or_register);
        }
        let value: u8 = self.get_register_target(target);
        let a = self.registers.a;
        let new_value = self.logical_or(a, value);
        self.registers.a = new_value;
        return 1;
    }

    /// Bitwise or of the byte that a pair points at into A.
    fn or_memory(&mut self, target: DoubleRegisterTarget) -> (cycles: usize)
        ensures
            final(self)@ == old(self)@.or_memory(target).0,
            cycles == old(self)@.or_memory(target).1,
            1 <= cycles <= 6,
    {
        proof {
            reveal(Machine::or_memory);
        }
        let value: u8 = self.get_memory_target(target);
        let a = self.registers.a;
        let new_value = self.logical_or(a, value);
        self.registers.a = new_value;
        return 2;
    }

    /// Bitwise or of the immediate byte into A.
    fn or_immediate(&mut self) -> (cycles: usize)
        ensures
            final(self)@ == old(self)@.or_immediate().0,
            cycles == old(self)@.or_immediate().1,
            1 <= cycles <= 6,
    {
        proof {
            reveal(Machine::or_immediate);
        }
        let value: u8 = self.get_n();
        let a = self.registers.a;
        let new_value = self.logical_or(a, value);
        self.registers.a = new_value;
        return 2;
    }

    /// Flips the carry flag.
    fn complement_carry(&mut self) -> (cycles: usize)
        ensures
            final(self)@ == old(self)@.complement_carry().0,
            cycles == old(self)@.complement_carry().1,
            1 <= cycles <= 6,
    {
        proof {
            reveal(Machine::complement_carry);
        }
        if self.registers.get_carry() == 1 {
            self.registers.clear_carry();
        } else {
            self.registers.flag_carry();
        }
        self.registers.clear_subtract();
        self.registers.clear_half_carry();
        return 1;
    }

    /// Sets the carry flag.
    fn set_carry(&mut self) -> (cycles: usize)
        ensures
            final(self)@ == old(self)@.set_carry().0,
            cycles == old(self)@.set_carry().1,
            1 <= cycles <= 6,
    {
        proof {
            reveal(Machine::set_carry);
        }
        self.registers.flag_carry();
        self.registers.clear_subtract();
        self.registers.clear_half_carry();
        return 1;
    }

    /// Complements A.
    fn complement_accumulator(&mut self) -> (cycles: usize)
        ensures
            final(self)@ == old(self)@.complement_accumulator().0,
            cycles == old(self)@.complement_accumulator().1,
            1 <= cycles <= 6,
    {
        proof {
            reveal(Machine::complement_accumulator);
        }
        let a = self.registers.a;
        assert(!a == 255 - a) by (bit_vector);
        self.registers.a = !a;
        self.registers.flag_subtract();
        self.registers.flag_half_carry();
        return 1;
    }

    /// Adjusts A to packed decimal after an addition or subtraction.
    fn decimal_adjust_accumulator(&mut self) -> (cycles: usize)
        ensures
            final(self)@ == old(self)@.decimal_adjust_accumulator().0,
            cycles == old(self)@.decimal_adjust_accumulator().1,
            1 <= cycles <= 6,
    {
        proof {
            reveal(Machine::decimal_adjust_accumulator);
        }
        let (new_value, flags) = decimal_adjust(self.registers.a, self.registers.f);
        self.registers.a = new_value;
        self.registers.f = flags;
        return 1;
    }

    /// Jumps to the immediate address.
    fn jump(&mut self, condition: Conditional) -> (cycles: usize)
        ensures
            final(self)@ == old(self)@.jump(condition).0,
            cycles == old(self)@.jump(condition).1,
            1 <= cycles <= 6,
    {
        proof {
            reveal(Machine::jump);
        }
        let mut cycles: usize = 3;
        let new_location: u16 = self.get_nn();
        let do_jump: bool = self.check_conditional(condition);
        if do_jump {
            self.pc = new_location;
            cycles += 1;
        }
        return cycles;
    }

    /// Jumps to the address in HL.
    fn jump_to_hl(&mut self) -> (cycles: usize)
        ensures
            final(self)@ == old(self)@.jump_to_hl().0,
            cycles == old(self)@.jump_to_hl().1,
            1 <= cycles <= 6,
    {
        proof {
            reveal(Machine::jump_to_hl);
        }
        self.pc = self.registers.get_hl();
        return 1;
    }

    /// Jumps by the signed immediate offset.
    fn jump_relative(&mut self, condition: Conditional) -> (cycles: usize)
        ensures
            final(self)@ == old(self)@.jump_relative(condition).0,
            cycles == old(self)@.jump_relative(condition).1,
            1 <= cycles <= 6,
    {
        proof {
            reveal(Machine::jump_relative);
        }
        let mut cycles: usize = 2;
        let n: u8 = self.get_n();
        let do_jump: bool = self.check_conditional(condition);
        if do_jump {
            self.pc = displace(self.pc, n);
            cycles += 1;
        }
        return cycles;
    }

    /// Pushes the program counter and jumps to the immediate address.
    fn call_conditional(&mut self, condition: Conditional) -> (cycles: usize)
        ensures
            final(self)@ == old(self)@.call_conditional(condition).0,
            cycles == old(self)@.call_conditional(condition).1,
            1 <= cycles <= 6,
    {
        proof {
            reveal(Machine::call_conditional);
        }
        let mut cycles: usize = 3;
        let new_location: u16 = self.get_nn();
        let do_call: bool = self.check_conditional(condition);
        if do_call {
            self.call(new_location);
            cycles += 3;
        }
        return cycles;
    }

    /// Pops the program counter.
    fn return_conditional(&mut self, condition: Conditional) -> (cycles: usize)
        ensures
            final(self)@ == old(self)@.return_conditional(condition).0,
            cycles == old(self)@.return_conditional(condition).1,
            1 <= cycles <= 6,
    {
        proof {
            reveal(Machine::return_conditional);
        }
        let mut cycles: usize = 2;
        let do_return: bool = self.check_conditional(condition);
        if do_return {
            let address = self.pop();
            self.pc = address;
            match condition {
                Conditional::Unconditional => {
                    cycles += 2;
                },
                _ => {
                    cycles += 3;
                },
            }
        }
        return cycles;
    }

    /// Pushes the program counter and jumps to a fixed target.
    fn call_fixed(&mut self, target: InvariantFunction) -> (cycles: usize)
        ensures
            final(self)@ == old(self)@.call_fixed(target).0,
            cycles == old(self)@.call_fixed(target).1,
            1 <= cycles <= 6,
    {
        proof {
            reveal(Machine::call_fixed);
        }
        let address = self.deref_invariant_function(target);
        self.call(address);
        return 4;
    }

    /// Copies the second register into the first.
    fn load_register(
        &mut self,
        destination: RegisterTarget,
        source: RegisterTarget,
    ) -> (cycles: usize)
        ensures
            final(self)@ == old(self)@.load_register(destination, source).0,
            cycles == old(self)@.load_register(destination, source).1,
            1 <= cycles <= 6,
    {
        proof {
            reveal(Machine::load_register);
        }
        let data: u8 = self.get_register_target(source);
        self.set_register_target(destination, data);
        return 1;
    }

    /// Loads the immediate byte into a register.
    fn load_immediate(&mut self, destination: RegisterTarget) -> (cycles: usize)
        ensures
            final(self)@ == old(self)@.load_immediate(destination).0,
            cycles == old(self)@.load_immediate(destination).1,
            1 <= cycles <= 6,
    {
        proof {
            reveal(Machine::load_immediate);
        }
        let n: u8 = self.get_n();
        self.set_register_target(destination, n);
        return 2;
    }

    /// Loads the byte that a pair points at into a register, then adjusts the
    /// pair.
    fn load_from_memory(
        &mut self,
        destination_register: RegisterTarget,
        memory_source: DoubleRegisterTarget,
        post_op: PostOp,
    ) -> (cycles: usize)
        ensures
            final(self)@ == old(self)@.load_from_memory(
                destination_register,
                memory_source,
                post_op,
            ).0,
            cycles == old(self)@.load_from_memory(
                destination_register,
                memory_source,
                post_op,
            ).1,
            1 <= cycles <= 6,
    {
        proof {
            reveal(Machine::load_from_memory);
        }
        let data: u8 = self.get_memory_target(memory_source);
        self.set_register_target(destination_register, data);
        self.do_post_op(memory_source, post_op);
        return 2;
    }

    /// Stores a register where a pair points, then adjusts the pair.
    fn store_to_memory(
        &mut self,
        memory_destination: DoubleRegisterTarget,
        source_register: RegisterTarget,
        post_op: PostOp,
    ) -> (cycles: usize)
        ensures
            final(self)@ == old(self)@.store_to_memory(
                memory_destination,
                source_register,
                post_op,
            ).0,
            cycles == old(self)@.store_to_memory(
                memory_destination,
                source_register,
                post_op,
            ).1,
            1 <= cycles <= 6,
    {
        proof {
            reveal(Machine::store_to_memory);
        }
        let data: u8 = self.get_register_target(source_register);
        self.set_memory_target(memory_destination, data);
        self.do_post_op(memory_destination, post_op);
        return 2;
    }

    /// Stores the immediate byte where a pair points.
    fn store_immediate(&mut self, destination: DoubleRegisterTarget) -> (cycles: usize)
        ensures
            final(self)@ == old(self)@.store_immediate(destination).0,
            cycles == old(self)@.store_immediate(destination).1,
            1 <= cycles <= 6,
    {
        proof {
            reveal(Machine::store_immediate);
        }
        let n: u8 = self.get_n();
        self.set_memory_target(destination, n);
        return 3;
    }

    /// Loads the byte at the immediate address into a register.
    fn load_from_address(&mut self, destination: RegisterTarget) -> (cycles: usize)
        ensures
            final(self)@ == old(self)@.load_from_address(destination).0,
            cycles == old(self)@.load_from_address(destination).1,
            1 <= cycles <= 6,
    {
        proof {
            reveal(Machine::load_from_address);
        }
        let nn: u16 = self.get_nn();
        let data: u8 = self.memory.read_byte(nn);
        self.set_register_target(destination, data);
        return 4;
    }

    /// Stores a register at the immediate address.
    fn store_to_address(&mut self, source: RegisterTarget) -> (cycles: usize)
        ensures
            final(self)@ == old(self)@.store_to_address(source).0,
            cycles == old(self)@.store_to_address(source).1,
            1 <= cycles <= 6,
    {
        proof {
            reveal(Machine::store_to_address);
        }
        let nn: u16 = self.get_nn();
        let data: u8 = self.get_register_target(source);
        self.memory.write_byte(nn, data);
        return 4;
    }

    /// Loads into the first register the byte in the high page at the offset
    /// held by the second.
    fn load_from_high_page(
        &mut self,
        destination: RegisterTarget,
        offset: RegisterTarget,
    ) -> (cycles: usize)
        ensures
            final(self)@ == old(self)@.load_from_high_page(destination, offset).0,
            cycles == old(self)@.load_from_high_page(destination, offset).1,
            1 <= cycles <= 6,
    {
        proof {
            reveal(Machine::load_from_high_page);
        }
        let offset: u8 = self.get_register_target(offset);
        let data: u8 = self.memory.read_byte(0xFF00_u16 + offset as u16);
        self.set_register_target(destination, data);
        return 2;
    }

    /// Stores the second register in the high page at the offset held by the
    /// first.
    fn store_to_high_page(
        &mut self,
        offset: RegisterTarget,
        source: RegisterTarget,
    ) -> (cycles: usize)
        ensures
            final(self)@ == old(self)@.store_to_high_page(offset, source).0,
            cycles == old(self)@.store_to_high_page(offset, source).1,
            1 <= cycles <= 6,
    {
        proof {
            reveal(Machine::store_to_high_page);
        }
        let offset: u8 = self.get_register_target(offset);
        let data: u8 = self.get_register_target(source);
        self.memory.write_byte(0xFF00_u16 + offset as u16, data);
        return 2;
    }

    /// Loads into a register the byte in the high page at the immediate offset.
    fn load_from_high_page_immediate(&mut self, destination: RegisterTarget) -> (cycles: usize)
        ensures
            final(self)@ == old(self)@.load_from_high_page_immediate(destination).0,
            cycles == old(self)@.load_from_high_page_immediate(destination).1,
            1 <= cycles <= 6,
    {
        proof {
            reveal(Machine::load_from_high_page_immediate);
        }
        let offset: u8 = self.get_n();
        let data: u8 = self.memory.read_byte(0xFF00_u16 + offset as u16);
        self.set_register_target(destination, data);
        return 3;
    }

    /// Stores a register in the high page at the immediate offset.
    fn store_to_high_page_immediate(&mut self, source: RegisterTarget) -> (cycles: usize)
        ensures
            final(self)@ == old(self)@.store_to_high_page_immediate(source).0,
            cycles == old(self)@.store_to_high_page_immediate(source).1,
            1 <= cycles <= 6,
    {
        proof {
            reveal(Machine::store_to_high_page_immediate);
        }
        let offset: u8 = self.get_n();
        let data: u8 = self.get_register_target(source);
        self.memory.write_byte(0xFF00_u16 + offset as u16, data);
        return 3;
    }

    /// Loads the immediate word into a pair.
    fn load_pair_immediate(&mut self, destination: DoubleRegisterTarget) -> (cycles: usize)
        ensures
            final(self)@ == old(self)@.load_pair_immediate(destination).0,
            cycles == old(self)@.load_pair_immediate(destination).1,
            1 <= cycles <= 6,
    {
        proof {
            reveal(Machine::load_pair_immediate);
        }
        let data = self.get_nn();
        self.set_double_register_target(destination, data);
        return 3;
    }

    /// Stores the stack pointer at the immediate address.
    fn store_stack_pointer(&mut self) -> (cycles: usize)
        ensures
            final(self)@ == old(self)@.store_stack_pointer().0,
            cycles == old(self)@.store_stack_pointer().1,
            1 <= cycles <= 6,
    {
        proof {
            reveal(Machine::store_stack_pointer);
        }
        let destination = self.get_nn();
        let sp = self.sp;
        assert((sp & 0xFF00) as u8 == 0) by (bit_vector);
        self.memory.write_byte(destination, lower(sp));
        self.memory.write_byte(
            destination.wrapping_add(1),
            #[verifier::truncate]
            ((sp & 0xFF00) as u8),
        );
        return 5;
    }

    /// Loads the immediate word into the stack pointer.
    fn load_stack_pointer_immediate(&mut self) -> (cycles: usize)
        ensures
            final(self)@ == old(self)@.load_stack_pointer_immediate().0,
            cycles == old(self)@.load_stack_pointer_immediate().1,
            1 <= cycles <= 6,
    {
        proof {
            reveal(Machine::load_stack_pointer_immediate);
        }
        let data = self.get_nn();
        self.sp = data;
        return 3;
    }

    /// Copies a pair into the stack pointer.
    fn load_stack_pointer(&mut self, source: DoubleRegisterTarget) -> (cycles: usize)
        ensures
            final(self)@ == old(self)@.load_stack_pointer(source).0,
            cycles == old(self)@.load_stack_pointer(source).1,
            1 <= cycles <= 6,
    {
        proof {
            reveal(Machine::load_stack_pointer);
        }
        self.sp = self.get_double_register_target(source);
        return 2;
    }

    /// Loads into a pair the stack pointer plus the signed immediate offset.
    fn load_pair_stack_offset(&mut self, destination: DoubleRegisterTarget) -> (cycles: usize)
        ensures
            final(self)@ == old(self)@.load_pair_stack_offset(destination).0,
            cycles == old(self)@.load_pair_stack_offset(destination).1,
            1 <= cycles <= 6,
    {
        proof {
            reveal(Machine::load_pair_stack_offset);
        }
        let n: u8 = self.get_n();
        let sp = self.sp;
        let data: u16 = displace(sp, n);
        self.set_double_register_target(destination, data);
        self.set_stack_offset_flags(sp, n);
        return 3;
    }

    /// Adds the signed immediate offset to the stack pointer.
    fn add_stack_offset(&mut self) -> (cycles: usize)
        ensures
            final(self)@ == old(self)@.add_stack_offset().0,
            cycles == old(self)@.add_stack_offset().1,
            1 <= cycles <= 6,
    {
        proof {
            reveal(Machine::add_stack_offset);
        }
        let n: u8 = self.get_n();
        let sp = self.sp;
        self.sp = displace(sp, n);
        self.set_stack_offset_flags(sp, n);
        return 4;
    }

    /// Pushes a pair.
    fn push_pair(&mut self, source: DoubleRegisterTarget) -> (cycles: usize)
        ensures
            final(self)@ == old(self)@.push_pair(source).0,
            cycles == old(self)@.push_pair(source).1,
            1 <= cycles <= 6,
    {
        proof {
            reveal(Machine::push_pair);
        }
        let data = self.get_double_register_target(source);
        self.push(data);
        return 4;
    }

    /// Pops a pair.
    fn pop_pair(&mut self, destination: DoubleRegisterTarget) -> (cycles: usize)
        ensures
            final(self)@ == old(self)@.pop_pair(destination).0,
            cycles == old(self)@.pop_pair(destination).1,
            1 <= cycles <= 6,
    {
        proof {
            reveal(Machine::pop_pair);
        }
        let data: u16 = self.pop();
        self.set_double_register_target(destination, data);
        return 3;
    }

    /// Clears one bit of a register.
    fn reset_bit(&mut self, bit_index: u8, target: RegisterTarget) -> (cycles: usize)
        requires
            bit_index <= 7,
        ensures
            final(self)@ == old(self)@.reset_bit(bit_index, target).0,
            cycles == old(self)@.reset_bit(bit_index, target).1,
            1 <= cycles <= 6,
    {
        proof {
            reveal(Machine::reset_bit);
        }
        let target_value: u8 = self.get_register_target(target);
        let (cleared, was_set) = clear_bit(target_value, bit_index);
        if was_set {
            self.set_register_target(target, cleared);
        }
        return 1;
    }

    /// Clears one bit of the byte that a pair points at.
    fn reset_memory_bit(
        &mut self,
        bit_index: u8,
        mem_target: DoubleRegisterTarget,
    ) -> (cycles: usize)
        requires
            bit_index <= 7,
        ensures
            final(self)@ == old(self)@.reset_memory_bit(bit_index, mem_target).0,
            cycles == old(self)@.reset_memory_bit(bit_index, mem_target).1,
            1 <= cycles <= 6,
    {
        proof {
            reveal(Machine::reset_memory_bit);
        }
        let target_value: u8 = self.get_memory_target(mem_target);
        let (cleared, was_set) = clear_bit(target_value, bit_index);
        if was_set {
            self.set_memory_target(mem_target, cleared);
        }
        return 3;
    }

    /// Sets one bit of a register.
    fn set_bit(&mut self, bit_index: u8, target: RegisterTarget) -> (cycles: usize)
        requires
            bit_index <= 7,
        ensures
            final(self)@ == old(self)@.set_bit(bit_index, target).0,
            cycles == old(self)@.set_bit(bit_index, target).1,
            1 <= cycles <= 6,
    {
        proof {
            reveal(Machine::set_bit);
        }
        let bit_finder: u8 = 1 << bit_index;
        let target_value: u8 = self.get_register_target(target);
        self.set_register_target(target, target_value | bit_finder);
        return 1;
    }

    /// Sets one bit of the byte that a pair points at.
    fn set_memory_bit(
        &mut self,
        bit_index: u8,
        target_address: DoubleRegisterTarget,
    ) -> (cycles: usize)
        requires
            bit_index <= 7,
        ensures
            final(self)@ == old(self)@.set_memory_bit(bit_index, target_address).0,
            cycles == old(self)@.set_memory_bit(bit_index, target_address).1,
            1 <= cycles <= 6,
    {
        proof {
            reveal(Machine::set_memory_bit);
        }
        let bit_finder: u8 = 1 << bit_index;
        let target_value: u8 = self.get_memory_target(target_address);
        self.set_memory_target(target_address, target_value | bit_finder);
        return 3;
    }

    /// Copies the complement of one bit of a register into the zero flag.
    fn test_bit(&mut self, bit_index: u8, source: RegisterTarget) -> (cycles: usize)
        requires
            bit_index <= 7,
        ensures
            final(self)@ == old(self)@.test_bit(bit_index, source).0,
            cycles == old(self)@.test_bit(bit_index, source).1,
            1 <= cycles <= 6,
    {
        proof {
            reveal(Machine::test_bit);
        }
        let value = self.get_register_target(source);
        self.set_bit_test_flags(value, bit_index);
        return 1;
    }

    /// Copies the complement of one bit of the byte that a pair points at into
    /// the zero flag.
    fn test_memory_bit(
        &mut self,
        bit_index: u8,
        source_address: DoubleRegisterTarget,
    ) -> (cycles: usize)
        requires
            bit_index <= 7,
        ensures
            final(self)@ == old(self)@.test_memory_bit(bit_index, source_address).0,
            cycles == old(self)@.test_memory_bit(bit_index, source_address).1,
            1 <= cycles <= 6,
    {
        proof {
            reveal(Machine::test_memory_bit);
        }
        let value = self.get_memory_target(source_address);
        self.set_bit_test_flags(value, bit_index);
        return 2;
    }

    /// Shifts a register left.
    fn shift_register_left(&mut self, operation: ShiftOp, target: RegisterTarget) -> (cycles: usize)
        ensures
            final(self)@ == old(self)@.shift_register_left(operation, target).0,
            cycles == old(self)@.shift_register_left(operation, target).1,
            1 <= cycles <= 6,
    {
        proof {
            reveal(Machine::shift_register_left);
        }
        let value: u8 = self.get_register_target(target);
        let carry: u8 = self.registers.get_carry();
        let (new_value, carry_out) = shift_left(value, operation, carry);
        self.set_register_target(target, new_value);
        self.set_shift_flags(new_value, carry_out);
        return 1;
    }

    /// Shifts the byte that a pair points at left.
    fn shift_memory_left(
        &mut self,
        operation: ShiftOp,
        target: DoubleRegisterTarget,
    ) -> (cycles: usize)
        ensures
            final(self)@ == old(self)@.shift_memory_left(operation, target).0,
            cycles == old(self)@.shift_memory_left(operation, target).1,
            1 <= cycles <= 6,
    {
        proof {
            reveal(Machine::shift_memory_left);
        }
        let value: u8 = self.get_memory_target(target);
        let carry: u8 = self.registers.get_carry();
        let (new_value, carry_out) = shift_left(value, operation, carry);
        self.set_memory_target(target, new_value);
        self.set_shift_flags(new_value, carry_out);
        return 3;
    }

    /// Shifts a register right.
    fn shift_register_right(
        &mut self,
        operation: ShiftOp,
        target: RegisterTarget,
    ) -> (cycles: usize)
        ensures
            final(self)@ == old(self)@.shift_register_right(operation, target).0,
            cycles == old(self)@.shift_register_right(operation, target).1,
            1 <= cycles <= 6,
    {
        proof {
            reveal(Machine::shift_register_right);
        }
        let value: u8 = self.get_register_target(target);
        let carry: u8 = self.registers.get_carry();
        let (new_value, carry_out) = shift_right(value, operation, carry);
        self.set_register_target(target, new_value);
        self.set_shift_flags(new_value, carry_out);
        return 1;
    }

    /// Shifts the byte that a pair points at right.
    fn shift_memory_right(
        &mut self,
        operation: ShiftOp,
        target: DoubleRegisterTarget,
    ) -> (cycles: usize)
        ensures
            final(self)@ == old(self)@.shift_memory_right(operation, target).0,
            cycles == old(self)@.shift_memory_right(operation, target).1,
            1 <= cycles <= 6,
    {
        proof {
            reveal(Machine::shift_memory_right);
        }
        let value: u8 = self.get_memory_target(target);
        let carry: u8 = self.registers.get_carry();
        let (new_value, carry_out) = shift_right(value, operation, carry);
        self.set_memory_target(target, new_value);
        self.set_shift_flags(new_value, carry_out);
        return 3;
    }

    /// Moves the lower nibble of a register into its upper nibble.
    fn fold_register(&mut self, target: RegisterTarget) -> (cycles: usize)
        ensures
            final(self)@ == old(self)@.fold_register(target).0,
            cycles == old(self)@.fold_register(target).1,
            1 <= cycles <= 6,
    {
        proof {
            reveal(Machine::fold_register);
        }
        let value: u8 = self.get_register_target(target);
        self.set_register_target(target, fold_nibbles(value));
        self.registers.clear_subtract();
        self.registers.clear_half_carry();
        self.registers.clear_carry();
        return 1;
    }

    /// Moves the lower nibble of the byte that a pair points at into its upper
    /// nibble.
    fn fold_memory(&mut self, target: DoubleRegisterTarget) -> (cycles: usize)
        ensures
            final(self)@ == old(self)@.fold_memory(target).0,
            cycles == old(self)@.fold_memory(target).1,
            1 <= cycles <= 6,
    {
        proof {
            reveal(Machine::fold_memory);
        }
        let value: u8 = self.get_memory_target(target);
        self.set_memory_target(target, fold_nibbles(value));
        self.registers.clear_subtract();
        self.registers.clear_half_carry();
        self.registers.clear_carry();
        return 3;
    }

    /// Leaves the interrupt switch as it is. Interrupts are switched off
    /// only by serving one.
    fn disable_interrupts(&mut self) -> (cycles: usize)
        ensures
            final(self)@ == old(self)@.disable_interrupts().0,
            cycles == old(self)@.disable_interrupts().1,
            1 <= cycles <= 6,
    {
        proof {
            reveal(Machine::disable_interrupts);
        }
        return 1;
    }

    /// Asks for interrupts to be served. The request takes effect after the
    /// instruction that follows.
    fn enable_interrupts(&mut self) -> (cycles: usize)
        ensures
            final(self)@ == old(self)@.enable_interrupts().0,
            cycles == old(self)@.enable_interrupts().1,
            1 <= cycles <= 6,
    {
        proof {
            reveal(Machine::enable_interrupts);
        }
        self.master_interrupt_request = true;
        return 1;
    }

    /// Executes one instruction and returns the machine cycles it took.
    ///
    /// The bit index of a bit instruction must lie between 0 and 7, as it
    /// does for every instruction that the decoder gives.
    pub fn execute(&mut self, instruction: Instruction) -> (cycles: usize)
        requires
            instruction.well_formed(),
        ensures
            final(self)@ == old(self)@.execute(instruction).0,
            cycles == old(self)@.execute(instruction).1,
            1 <= cycles <= 6,
    {
        // Each arm returns by itself, so that the postcondition is proved
        // for one instruction at a time.
        match instruction {
            Instruction::NOP() => {
                return self.nop();
            },
            Instruction::ADD(target, include_carry) => {
                return self.add_register(target, include_carry);
            },
            Instruction::ADDmem(target, include_carry) => {
                return self.add_memory(target, include_carry);
            },
            Instruction::ADDn(include_carry) => {
                return self.add_immediate(include_carry);
            },
            Instruction::ADD16(source) => {
                return self.add_pair(source);
            },
            Instruction::ADD16SP() => {
                return self.add_stack_pointer();
            },
            Instruction::SUB(target, include_carry) => {
                return self.sub_register(target, include_carry);
            },
            Instruction::SUBmem(target, include_carry) => {
                return self.sub_memory(target, include_carry);
            },
            Instruction::SUBn(include_carry) => {
                return self.sub_immediate(include_carry);
            },
            Instruction::CP(target) => {
                return self.compare_register(target);
            },
            Instruction::CPmem(target) => {
                return self.compare_memory(target);
            },
            Instruction::CPn() => {
                return self.compare_immediate();
            },
            Instruction::INC(target) => {
                return self.increment_register(target);
            },
            Instruction::INCmem(target) => {
                return self.increment_memory(target);
            },
            Instruction::INC16(target) => {
                return self.increment_pair(target);
            },
            Instruction::INCSP() => {
                return self.increment_stack_pointer();
            },
            Instruction::DEC(target) => {
                return self.decrement_register(target);
            },
            Instruction::DECmem(target) => {
                return self.decrement_memory(target);
            },
            Instruction::DEC16(target) => {
                return self.decrement_pair(target);
            },
            Instruction::DECSP() => {
                return self.decrement_stack_pointer();
            },
            Instruction::AND(target) => {
                return self.and_register(target);
            },
            Instruction::ANDmem(target) => {
                return self.and_memory(target);
            },
            Instruction::ANDn() => {
                return self.and_immediate();
            },
            Instruction::XOR(target) => {
                return self.xor_register(target);
            },
            Instruction::XORmem(target) => {
                return self.xor_memory(target);
            },
            Instruction::XORn() => {
                return self.xor_immediate();
            },
            Instruction::OR(target) => {
                return self.or_register(target);
            },
            Instruction::ORmem(target) => {
                return self.or_memory(target);
            },
            Instruction::ORn() => {
                return self.or_immediate();
            },
            Instruction::CCF() => {
                return self.complement_carry();
            },
            Instruction::SCF() => {
                return self.set_carry();
            },
            Instruction::CPL() => {
                return self.complement_accumulator();
            },
            Instruction::DAA() => {
                return self.decimal_adjust_accumulator();
            },
            Instruction::JumpNN(condition) => {
                return self.jump(condition);
            },
            Instruction::JumpHL() => {
                return self.jump_to_hl();
            },
            Instruction::JumpRn(condition) => {
                return self.jump_relative(condition);
            },
            Instruction::CallNN(condition) => {
                return self.call_conditional(condition);
            },
            Instruction::Return(condition) => {
                return self.return_conditional(condition);
            },
            Instruction::CallI(target) => {
                return self.call_fixed(target);
            },
            Instruction::LoadRR(destination, source) => {
                return self.load_register(destination, source);
            },
            Instruction::LoadRN(destination) => {
                return self.load_immediate(destination);
            },
            Instruction::LoadRMem(destination_register, memory_source, post_op) => {
                return self.load_from_memory(destination_register, memory_source, post_op);
            },
            Instruction::LoadMemR(memory_destination, source_register, post_op) => {
                return self.store_to_memory(memory_destination, source_register, post_op);
            },
            Instruction::LoadMemN(destination) => {
                return self.store_immediate(destination);
            },
            Instruction::LoadRNN(destination) => {
                return self.load_from_address(destination);
            },
            Instruction::LoadNNR(source) => {
                return self.store_to_address(source);
            },
            Instruction::LoadRHighR(destination, offset) => {
                return self.load_from_high_page(destination, offset);
            },
            Instruction::LoadHighRR(offset, source) => {
                return self.store_to_high_page(offset, source);
            },
            Instruction::LoadRHighN(destination) => {
                return self.load_from_high_page_immediate(destination);
            },
            Instruction::LoadHighNR(source) => {
                return self.store_to_high_page_immediate(source);
            },
            Instruction::LoadRRNN(destination) => {
                return self.load_pair_immediate(destination);
            },
            Instruction::LoadNNSP() => {
                return self.store_stack_pointer();
            },
            Instruction::LoadSPNN() => {
                return self.load_stack_pointer_immediate();
            },
            Instruction::LoadSPRR(source) => {
                return self.load_stack_pointer(source);
            },
            Instruction::LoadRRSPn(destination) => {
                return self.load_pair_stack_offset(destination);
            },
            Instruction::ADDSPn() => {
                return self.add_stack_offset();
            },
            Instruction::PushRR(source) => {
                return self.push_pair(source);
            },
            Instruction::PopRR(destination) => {
                return self.pop_pair(destination);
            },
            Instruction::Reset(bit_index, target) => {
                return self.reset_bit(bit_index, target);
            },
            Instruction::ResetMem(bit_index, mem_target) => {
                return self.reset_memory_bit(bit_index, mem_target);
            },
            Instruction::SetBit(bit_index, target) => {
                return self.set_bit(bit_index, target);
            },
            Instruction::SetMem(bit_index, target_address) => {
                return self.set_memory_bit(bit_index, target_address);
            },
            Instruction::BitCopy(bit_index, source) => {
                return self.test_bit(bit_index, source);
            },
            Instruction::BitCopyMem(bit_index, source_address) => {
                return self.test_memory_bit(bit_index, source_address);
            },
            Instruction::LeftShift(operation, target) => {
                return self.shift_register_left(operation, target);
            },
            Instruction::LeftShiftMem(operation, target) => {
                return self.shift_memory_left(operation, target);
            },
            Instruction::RightShift(operation, target) => {
                return self.shift_register_right(operation, target);
            },
            Instruction::RightShiftMem(operation, target) => {
                return self.shift_memory_right(operation, target);
            },
            Instruction::Swap(target) => {
                return self.fold_register(target);
            },
            Instruction::SwapMem(target) => {
                return self.fold_memory(target);
            },
            Instruction::DI() => {
                return self.disable_interrupts();
            },
            Instruction::EI() => {
                return self.enable_interrupts();
            },
        }
    }

    /// Enters an instruction into the record. A no-operation is only
    /// counted; any other instruction becomes the first entry and the last
    /// entry drops out.
    pub fn record(&mut self, instruction: Instruction)
        ensures
            final(self)@ == old(self)@.recorded(instruction),
    {
        match instruction {
            Instruction::NOP() => {
                self.nop_count = self.nop_count.wrapping_add(1);
            },
            _ => {
                let spi: u32 = ((0x10000 - self.sp as u32) / 2).wrapping_sub(1);
                let entry = InstructionHistory {
                    inst: instruction,
                    pc: self.pc,
                    nops: self.nop_count,
                    spi,
                };
                self.instruction_history[HISTORY_SIZE - 1] = entry;
                rotate_right(&mut self.instruction_history);
                self.nop_count = 0;
                assert(self@.history =~= old(self)@.recorded(instruction).history);
            },
        }
    }

    /// Runs one instruction: fetches the opcode, and the opcode behind it if
    /// the first is the prefix; decodes it; records and executes the
    /// instruction. Returns the machine cycles taken, or the fault that the
    /// step met.
    pub fn step(&mut self) -> (result: Result<usize, Fault>)
        ensures
            final(self)@ == old(self)@.step().0,
            result == old(self)@.step().1,
            result matches Ok(cycles) ==> 1 <= cycles <= 7,
    {
        let mut mem_cycles: usize = 0;
        let mut instruction_byte: u8 = self.memory.read_byte(self.pc);
        self.pc = self.pc.wrapping_add(1);
        let prefixed = instruction_byte == 0xCB;
        if prefixed {
            instruction_byte = self.memory.read_byte(self.pc);
            self.pc = self.pc.wrapping_add(1);
            mem_cycles += 1;
        }
        match Instruction::from_byte(instruction_byte, prefixed) {
            Some(instruction) => {
                self.record(instruction);
                mem_cycles += self.execute(instruction);
            },
            None => {
                return Err(Fault::UndefinedOpcode { opcode: instruction_byte, prefixed });
            },
        }
        if self.pc >= 0xFFFD {
            return Err(Fault::ProgramCounterTooHigh);
        }
        if self.sp == 0x0 {
            return Err(Fault::StackPointerTooHigh);
        }
        Ok(mem_cycles)
    }
}

/// Moves every entry of the record one place down and the last entry to the
/// front.
fn rotate_right(history: &mut [InstructionHistory; 99])
    ensures
        final(history)@ == seq![old(history)@[98]] + old(history)@.subrange(0, 98),
{
    let last = history[HISTORY_SIZE - 1];
    let mut index: usize = HISTORY_SIZE - 1;
    while index > 0
        invariant
            index <= 98,
            forall|i: int| 0 <= i <= index ==> history@[i] == old(history)@[i],
            forall|i: int| index < i <= 98 ==> history@[i] == old(history)@[i - 1],
        decreases index,
    {
        history[index] = history[index - 1];
        index -= 1;
    }
    history[0] = last;
    assert(history@ =~= seq![old(history)@[98]] + old(history)@.subrange(0, 98));
}

} // verus!
