//! What each instruction does to the state of the processor, and what one
//! step of fetching, decoding and executing does.

use vstd::prelude::*;
use crate::alu::{
    add_flags, bit_is_set, carry_bit, complement, decimal_adjusted, difference, displaced,
    logic_flags, next, nibbles_folded, shift_flags, shifted_left, shifted_right, signed,
    sub_flags, sum, with_bit_cleared, with_bit_set,
};
use crate::instruction::{
    decode, is_undefined_opcode, Conditional, DoubleRegisterTarget, Instruction,
    InvariantFunction, PostOp, RegisterTarget, ShiftOp,
};
use crate::instruction_history::InstructionHistory;
use crate::machine::{stack_depth, Fault, Machine};
use crate::memory::DIVIDER_REGISTER;
use crate::registers::FlagsRegister;
use crate::word::{high_byte, low_byte};

verus! {

impl Machine {
    /// The state after a byte was added to the accumulator.
    pub open spec fn add_to_a(self, value: u8) -> Machine {
        let a = self.registers.a;
        self.with_flags(add_flags(a, value)).with_register(RegisterTarget::A, sum(a, value))
    }

    /// The state after a byte was subtracted from the accumulator.
    pub open spec fn sub_from_a(self, value: u8) -> Machine {
        let a = self.registers.a;
        self.with_flags(sub_flags(a, value)).with_register(RegisterTarget::A, difference(a, value))
    }

    /// The state after a byte was compared with the accumulator: the flags
    /// of the subtraction, and the accumulator as it was.
    pub open spec fn compare_with_a(self, value: u8) -> Machine {
        self.with_flags(sub_flags(self.registers.a, value))
    }

    /// The state after the conjunction of a byte into the accumulator.
    pub open spec fn and_into_a(self, value: u8) -> Machine {
        let result = self.registers.a & value;
        self.with_flags(logic_flags(result, true)).with_register(RegisterTarget::A, result)
    }

    /// The state after the exclusive disjunction of a byte into the
    /// accumulator.
    pub open spec fn xor_into_a(self, value: u8) -> Machine {
        let result = self.registers.a ^ value;
        self.with_flags(logic_flags(result, false)).with_register(RegisterTarget::A, result)
    }

    /// The state after the disjunction of a byte into the accumulator.
    pub open spec fn or_into_a(self, value: u8) -> Machine {
        let result = self.registers.a | value;
        self.with_flags(logic_flags(result, false)).with_register(RegisterTarget::A, result)
    }

    /// The given flags with the carry of this state in place of theirs:
    /// what an increment or a decrement leaves.
    pub open spec fn keeping_carry(self, flags: FlagsRegister) -> FlagsRegister {
        FlagsRegister { carry: self.registers.f.carry, ..flags }
    }

    /// The state after a word was added to HL: the lower bytes are added
    /// first, and the carry of that addition is folded into the upper byte
    /// of the operand before the upper bytes are added. The flags are those
    /// of the second addition.
    pub open spec fn add_to_hl(self, value: u16) -> Machine {
        let l = self.registers.l;
        let h = self.registers.h;
        let operand = sum(high_byte(value), carry_bit(add_flags(l, low_byte(value)).carry));
        self.with_register(RegisterTarget::L, sum(l, low_byte(value))).with_register(
            RegisterTarget::H,
            sum(h, operand),
        ).with_flags(add_flags(h, operand))
    }

    /// The flags after a signed byte was added to the stack pointer: zero
    /// and subtract are cleared, and half-carry and carry are those of
    /// adding the byte to the lower byte of the stack pointer.
    pub open spec fn stack_offset_flags(self, displacement: u8) -> FlagsRegister {
        FlagsRegister {
            zero: false,
            subtract: false,
            ..add_flags(low_byte(self.sp), displacement)
        }
    }

    /// The flags after a bit test: zero is the complement of the bit,
    /// subtract is cleared, half-carry is set, and the carry stays.
    pub open spec fn bit_test_flags(self, value: u8, index: u8) -> FlagsRegister {
        FlagsRegister {
            zero: !bit_is_set(value, index),
            subtract: false,
            half_carry: true,
            carry: self.registers.f.carry,
        }
    }

    /// The flags after a nibble was folded: subtract, half-carry and carry
    /// are cleared, and zero stays.
    pub open spec fn fold_flags(self) -> FlagsRegister {
        FlagsRegister {
            zero: self.registers.f.zero,
            subtract: false,
            half_carry: false,
            carry: false,
        }
    }

    /// The state after the carry was flipped.
    pub open spec fn carry_flipped(self) -> Machine {
        self.with_flags(
            FlagsRegister {
                zero: self.registers.f.zero,
                subtract: false,
                half_carry: false,
                carry: !self.registers.f.carry,
            },
        )
    }

    /// The state after the carry was set.
    pub open spec fn carry_set(self) -> Machine {
        self.with_flags(
            FlagsRegister {
                zero: self.registers.f.zero,
                subtract: false,
                half_carry: false,
                carry: true,
            },
        )
    }

    /// The state after the accumulator was complemented.
    pub open spec fn a_complemented(self) -> Machine {
        self.with_register(RegisterTarget::A, complement(self.registers.a)).with_flags(
            FlagsRegister { subtract: true, half_carry: true, ..self.registers.f },
        )
    }

    /// The state after the accumulator was adjusted to packed decimal.
    pub open spec fn a_adjusted(self) -> Machine {
        let adjusted = decimal_adjusted(self.registers.a, self.registers.f);
        self.with_register(RegisterTarget::A, adjusted.0).with_flags(adjusted.1)
    }

    /// The state after a left shift of a byte gave `result`.
    pub open spec fn shift_left_flags(self, value: u8, operation: ShiftOp) -> FlagsRegister {
        shift_flags(shifted_left(value, operation, self.registers.f.carry), value >= 128)
    }

    /// The flags after a right shift of a byte.
    pub open spec fn shift_right_flags(self, value: u8, operation: ShiftOp) -> FlagsRegister {
        shift_flags(shifted_right(value, operation, self.registers.f.carry), value % 2 == 1)
    }
}

/// The address in the last page of memory at the given offset.
pub open spec fn high_page(offset: u8) -> u16 {
    (0xFF00 + offset) as u16
}

impl Machine {
    /// Does nothing.
    #[verifier::opaque]
    pub open spec fn nop(self) -> (Machine, usize) {
        (self, 1)
    }

    /// Adds a register to A; the flag asks for the carry to be added too.
    #[verifier::opaque]
    pub open spec fn add_register(
        self,
        target: RegisterTarget,
        include_carry: bool,
    ) -> (Machine, usize) {
        (
            self.add_to_a(self.with_carry(self.register(target), include_carry)),
            1,
        )
    }

    /// Adds the byte that a pair points at to A, with or without the carry.
    #[verifier::opaque]
    pub open spec fn add_memory(
        self,
        target: DoubleRegisterTarget,
        include_carry: bool,
    ) -> (Machine, usize) {
        (
            self.add_to_a(self.with_carry(self.pointee(target), include_carry)),
            2,
        )
    }

    /// Adds the immediate byte to A, with or without the carry.
    #[verifier::opaque]
    pub open spec fn add_immediate(self, include_carry: bool) -> (Machine, usize) {
        let n = self.immediate();
        let after_n = self.skip(1);
        (
            after_n.add_to_a(self.with_carry(n, include_carry)),
            2,
        )
    }

    /// Adds a pair to HL.
    #[verifier::opaque]
    pub open spec fn add_pair(self, source: DoubleRegisterTarget) -> (Machine, usize) {
        (self.add_to_hl(self.pair(source)), 2)
    }

    /// Adds the stack pointer to HL.
    #[verifier::opaque]
    pub open spec fn add_stack_pointer(self) -> (Machine, usize) {
        (self.add_to_hl(self.sp), 2)
    }

    /// Subtracts a register from A, with or without the carry.
    #[verifier::opaque]
    pub open spec fn sub_register(
        self,
        target: RegisterTarget,
        include_carry: bool,
    ) -> (Machine, usize) {
        (
            self.sub_from_a(self.with_carry(self.register(target), include_carry)),
            1,
        )
    }

    /// Subtracts the byte that a pair points at from A.
    #[verifier::opaque]
    pub open spec fn sub_memory(
        self,
        target: DoubleRegisterTarget,
        include_carry: bool,
    ) -> (Machine, usize) {
        (
            self.sub_from_a(self.with_carry(self.pointee(target), include_carry)),
            2,
        )
    }

    /// Subtracts the immediate byte from A.
    #[verifier::opaque]
    pub open spec fn sub_immediate(self, include_carry: bool) -> (Machine, usize) {
        let n = self.immediate();
        let after_n = self.skip(1);
        (
            after_n.sub_from_a(self.with_carry(n, include_carry)),
            2,
        )
    }

    /// Compares a register with A.
    #[verifier::opaque]
    pub open spec fn compare_register(self, target: RegisterTarget) -> (Machine, usize) {
        (self.compare_with_a(self.register(target)), 1)
    }

    /// Compares the byte that a pair points at with A.
    #[verifier::opaque]
    pub open spec fn compare_memory(self, target: DoubleRegisterTarget) -> (Machine, usize) {
        (self.compare_with_a(self.pointee(target)), 2)
    }

    /// Compares the immediate byte with A.
    #[verifier::opaque]
    pub open spec fn compare_immediate(self) -> (Machine, usize) {
        let n = self.immediate();
        let after_n = self.skip(1);
        (after_n.compare_with_a(n), 2)
    }

    /// Increments a register.
    #[verifier::opaque]
    pub open spec fn increment_register(self, target: RegisterTarget) -> (Machine, usize) {
        let value = self.register(target);
        (
            self.with_flags(self.keeping_carry(add_flags(value, 1))).with_register(
                target,
                sum(value, 1),
            ),
            1,
        )
    }

    /// Increments the byte that a pair points at.
    #[verifier::opaque]
    pub open spec fn increment_memory(self, target: DoubleRegisterTarget) -> (Machine, usize) {
        let value = self.pointee(target);
        (
            self.with_flags(self.keeping_carry(add_flags(value, 1))).with_pointee(
                target,
                sum(value, 1),
            ),
            3,
        )
    }

    /// Increments a pair.
    #[verifier::opaque]
    pub open spec fn increment_pair(self, target: DoubleRegisterTarget) -> (Machine, usize) {
        (self.with_pair(target, next(self.pair(target), 1)), 2)
    }

    /// Increments the stack pointer.
    #[verifier::opaque]
    pub open spec fn increment_stack_pointer(self) -> (Machine, usize) {
        (self.with_sp(next(self.sp, 1)), 2)
    }

    /// Decrements a register.
    #[verifier::opaque]
    pub open spec fn decrement_register(self, target: RegisterTarget) -> (Machine, usize) {
        let value = self.register(target);
        (
            self.with_flags(self.keeping_carry(sub_flags(value, 1))).with_register(
                target,
                difference(value, 1),
            ),
            1,
        )
    }

    /// Decrements the byte that a pair points at.
    #[verifier::opaque]
    pub open spec fn decrement_memory(self, target: DoubleRegisterTarget) -> (Machine, usize) {
        let value = self.pointee(target);
        (
            self.with_flags(self.keeping_carry(sub_flags(value, 1))).with_pointee(
                target,
                difference(value, 1),
            ),
            3,
        )
    }

    /// Decrements a pair.
    #[verifier::opaque]
    pub open spec fn decrement_pair(self, target: DoubleRegisterTarget) -> (Machine, usize) {
        (
            self.with_pair(target, next(self.pair(target), -1)),
            2,
        )
    }

    /// Decrements the stack pointer.
    #[verifier::opaque]
    pub open spec fn decrement_stack_pointer(self) -> (Machine, usize) {
        (self.with_sp(next(self.sp, -1)), 2)
    }

    /// Bitwise and of a register into A.
    #[verifier::opaque]
    pub open spec fn and_register(self, target: RegisterTarget) -> (Machine, usize) {
        (self.and_into_a(self.register(target)), 1)
    }

    /// Bitwise and of the byte that a pair points at into A.
    #[verifier::opaque]
    pub open spec fn and_memory(self, target: DoubleRegisterTarget) -> (Machine, usize) {
        (self.and_into_a(self.pointee(target)), 2)
    }

    /// Bitwise and of the immediate byte into A.
    #[verifier::opaque]
    pub open spec fn and_immediate(self) -> (Machine, usize) {
        let n = self.immediate();
        let after_n = self.skip(1);
        (after_n.and_into_a(n), 2)
    }

    /// Bitwise exclusive or of a register into A.
    #[verifier::opaque]
    pub open spec fn xor_register(self, target: RegisterTarget) -> (Machine, usize) {
        (self.xor_into_a(self.register(target)), 1)
    }

    /// Bitwise exclusive or of the byte that a pair points at into A.
    #[verifier::opaque]
    pub open spec fn xor_memory(self, target: DoubleRegisterTarget) -> (Machine, usize) {
        (self.xor_into_a(self.pointee(target)), 2)
    }

    /// Bitwise exclusive or of the immediate byte into A.
    #[verifier::opaque]
    pub open spec fn xor_immediate(self) -> (Machine, usize) {
        let n = self.immediate();
        let after_n = self.skip(1);
        (after_n.xor_into_a(n), 2)
    }

    /// Bitwise or of a register into A.
    #[verifier::opaque]
    pub open spec fn or_register(self, target: RegisterTarget) -> (Machine, usize) {
        (self.or_into_a(self.register(target)), 1)
    }

    /// Bitwise or of the byte that a pair points at into A.
    #[verifier::opaque]
    pub open spec fn or_memory(self, target: DoubleRegisterTarget) -> (Machine, usize) {
        (self.or_into_a(self.pointee(target)), 2)
    }

    /// Bitwise or of the immediate byte into A.
    #[verifier::opaque]
    pub open spec fn or_immediate(self) -> (Machine, usize) {
        let n = self.immediate();
        let after_n = self.skip(1);
        (after_n.or_into_a(n), 2)
    }

    /// Flips the carry flag.
    #[verifier::opaque]
    pub open spec fn complement_carry(self) -> (Machine, usize) {
        (self.carry_flipped(), 1)
    }

    /// Sets the carry flag.
    #[verifier::opaque]
    pub open spec fn set_carry(self) -> (Machine, usize) {
        (self.carry_set(), 1)
    }

    /// Complements A.
    #[verifier::opaque]
    pub open spec fn complement_accumulator(self) -> (Machine, usize) {
        (self.a_complemented(), 1)
    }

    /// Adjusts A to packed decimal after an addition or subtraction.
    #[verifier::opaque]
    pub open spec fn decimal_adjust_accumulator(self) -> (Machine, usize) {
        (self.a_adjusted(), 1)
    }

    /// Jumps to the immediate address.
    #[verifier::opaque]
    pub open spec fn jump(self, condition: Conditional) -> (Machine, usize) {
        let nn = self.immediate_word();
        let after_nn = self.skip(2);
        if self.holds(condition) {
            (self.at(nn), 4)
        } else {
            (after_nn, 3)
        }
    }

    /// Jumps to the address in HL.
    #[verifier::opaque]
    pub open spec fn jump_to_hl(self) -> (Machine, usize) {
        (self.at(self.registers.hl()), 1)
    }

    /// Jumps by the signed immediate offset.
    #[verifier::opaque]
    pub open spec fn jump_relative(self, condition: Conditional) -> (Machine, usize) {
        let n = self.immediate();
        let after_n = self.skip(1);
        if self.holds(condition) {
            (self.at(displaced(after_n.pc, n)), 3)
        } else {
            (after_n, 2)
        }
    }

    /// Pushes the program counter and jumps to the immediate address.
    #[verifier::opaque]
    pub open spec fn call_conditional(self, condition: Conditional) -> (Machine, usize) {
        let nn = self.immediate_word();
        let after_nn = self.skip(2);
        if self.holds(condition) {
            (after_nn.called(nn), 6)
        } else {
            (after_nn, 3)
        }
    }

    /// Pops the program counter.
    #[verifier::opaque]
    pub open spec fn return_conditional(self, condition: Conditional) -> (Machine, usize) {
        if self.holds(condition) {
            (
                self.popped().at(self.top()),
                if condition == Conditional::Unconditional {
                    4
                } else {
                    5
                },
            )
        } else {
            (self, 2)
        }
    }

    /// Pushes the program counter and jumps to a fixed target.
    #[verifier::opaque]
    pub open spec fn call_fixed(self, target: InvariantFunction) -> (Machine, usize) {
        (self.called(target.address()), 4)
    }

    /// Copies the second register into the first.
    #[verifier::opaque]
    pub open spec fn load_register(
        self,
        destination: RegisterTarget,
        source: RegisterTarget,
    ) -> (Machine, usize) {
        (
            self.with_register(destination, self.register(source)),
            1,
        )
    }

    /// Loads the immediate byte into a register.
    #[verifier::opaque]
    pub open spec fn load_immediate(self, destination: RegisterTarget) -> (Machine, usize) {
        let n = self.immediate();
        let after_n = self.skip(1);
        (after_n.with_register(destination, n), 2)
    }

    /// Loads the byte that a pair points at into a register, then adjusts
    /// the pair.
    #[verifier::opaque]
    pub open spec fn load_from_memory(
        self,
        destination: RegisterTarget,
        source: DoubleRegisterTarget,
        post_op: PostOp,
    ) -> (Machine, usize) {
        (
            self.with_register(destination, self.pointee(source)).post(source, post_op),
            2,
        )
    }

    /// Stores a register where a pair points, then adjusts the pair.
    #[verifier::opaque]
    pub open spec fn store_to_memory(
        self,
        destination: DoubleRegisterTarget,
        source: RegisterTarget,
        post_op: PostOp,
    ) -> (Machine, usize) {
        (
            self.with_pointee(destination, self.register(source)).post(destination, post_op),
            2,
        )
    }

    /// Stores the immediate byte where a pair points.
    #[verifier::opaque]
    pub open spec fn store_immediate(self, destination: DoubleRegisterTarget) -> (Machine, usize) {
        let n = self.immediate();
        let after_n = self.skip(1);
        (after_n.with_pointee(destination, n), 3)
    }

    /// Loads the byte at the immediate address into a register.
    #[verifier::opaque]
    pub open spec fn load_from_address(self, destination: RegisterTarget) -> (Machine, usize) {
        let nn = self.immediate_word();
        let after_nn = self.skip(2);
        (
            after_nn.with_register(destination, self.read(nn)),
            4,
        )
    }

    /// Stores a register at the immediate address.
    #[verifier::opaque]
    pub open spec fn store_to_address(self, source: RegisterTarget) -> (Machine, usize) {
        let nn = self.immediate_word();
        let after_nn = self.skip(2);
        (after_nn.write(nn, self.register(source)), 4)
    }

    /// Loads into the first register the byte in the high page at the
    /// offset held by the second.
    #[verifier::opaque]
    pub open spec fn load_from_high_page(
        self,
        destination: RegisterTarget,
        offset: RegisterTarget,
    ) -> (Machine, usize) {
        (
            self.with_register(destination, self.read(high_page(self.register(offset)))),
            2,
        )
    }

    /// Stores the second register in the high page at the offset held by
    /// the first.
    #[verifier::opaque]
    pub open spec fn store_to_high_page(
        self,
        offset: RegisterTarget,
        source: RegisterTarget,
    ) -> (Machine, usize) {
        (
            self.write(high_page(self.register(offset)), self.register(source)),
            2,
        )
    }

    /// Loads into a register the byte in the high page at the immediate
    /// offset.
    #[verifier::opaque]
    pub open spec fn load_from_high_page_immediate(
        self,
        destination: RegisterTarget,
    ) -> (Machine, usize) {
        let n = self.immediate();
        let after_n = self.skip(1);
        (
            after_n.with_register(destination, self.read(high_page(n))),
            3,
        )
    }

    /// Stores a register in the high page at the immediate offset.
    #[verifier::opaque]
    pub open spec fn store_to_high_page_immediate(
        self,
        source: RegisterTarget,
    ) -> (Machine, usize) {
        let n = self.immediate();
        let after_n = self.skip(1);
        (
            after_n.write(high_page(n), self.register(source)),
            3,
        )
    }

    /// Loads the immediate word into a pair.
    #[verifier::opaque]
    pub open spec fn load_pair_immediate(
        self,
        destination: DoubleRegisterTarget,
    ) -> (Machine, usize) {
        let nn = self.immediate_word();
        let after_nn = self.skip(2);
        (after_nn.with_pair(destination, nn), 3)
    }

    /// Stores the stack pointer at the immediate address.
    #[verifier::opaque]
    pub open spec fn store_stack_pointer(self) -> (Machine, usize) {
        let nn = self.immediate_word();
        let after_nn = self.skip(2);
        (
            after_nn.write(nn, low_byte(self.sp)).write(next(nn, 1), 0),
            5,
        )
    }

    /// Loads the immediate word into the stack pointer.
    #[verifier::opaque]
    pub open spec fn load_stack_pointer_immediate(self) -> (Machine, usize) {
        let nn = self.immediate_word();
        let after_nn = self.skip(2);
        (after_nn.with_sp(nn), 3)
    }

    /// Copies a pair into the stack pointer.
    #[verifier::opaque]
    pub open spec fn load_stack_pointer(self, source: DoubleRegisterTarget) -> (Machine, usize) {
        (self.with_sp(self.pair(source)), 2)
    }

    /// Loads into a pair the stack pointer plus the signed immediate offset.
    #[verifier::opaque]
    pub open spec fn load_pair_stack_offset(
        self,
        destination: DoubleRegisterTarget,
    ) -> (Machine, usize) {
        let n = self.immediate();
        let after_n = self.skip(1);
        (
            after_n.with_pair(destination, displaced(self.sp, n)).with_flags(
                self.stack_offset_flags(n),
            ),
            3,
        )
    }

    /// Adds the signed immediate offset to the stack pointer.
    #[verifier::opaque]
    pub open spec fn add_stack_offset(self) -> (Machine, usize) {
        let n = self.immediate();
        let after_n = self.skip(1);
        (
            after_n.with_sp(displaced(self.sp, n)).with_flags(self.stack_offset_flags(n)),
            4,
        )
    }

    /// Pushes a pair.
    #[verifier::opaque]
    pub open spec fn push_pair(self, source: DoubleRegisterTarget) -> (Machine, usize) {
        (self.pushed(self.pair(source)), 4)
    }

    /// Pops a pair.
    #[verifier::opaque]
    pub open spec fn pop_pair(self, destination: DoubleRegisterTarget) -> (Machine, usize) {
        (
            self.popped().with_pair(destination, self.top()),
            3,
        )
    }

    /// Leaves the interrupt switch as it is. Interrupts are switched off
    /// only by serving one.
    #[verifier::opaque]
    pub open spec fn disable_interrupts(self) -> (Machine, usize) {
        (self, 1)
    }

    /// Asks for interrupts to be served. The request takes effect after the
    /// instruction that follows.
    #[verifier::opaque]
    pub open spec fn enable_interrupts(self) -> (Machine, usize) {
        (Machine { master_interrupt_request: true, ..self }, 1)
    }

    /// Clears one bit of a register.
    #[verifier::opaque]
    pub open spec fn reset_bit(self, index: u8, target: RegisterTarget) -> (Machine, usize) {
        let value = self.register(target);
        (
            if bit_is_set(value, index) {
                self.with_register(target, with_bit_cleared(value, index))
            } else {
                self
            },
            1,
        )
    }

    /// Clears one bit of the byte that a pair points at.
    #[verifier::opaque]
    pub open spec fn reset_memory_bit(
        self,
        index: u8,
        target: DoubleRegisterTarget,
    ) -> (Machine, usize) {
        let value = self.pointee(target);
        (
            if bit_is_set(value, index) {
                self.with_pointee(target, with_bit_cleared(value, index))
            } else {
                self
            },
            3,
        )
    }

    /// Sets one bit of a register.
    #[verifier::opaque]
    pub open spec fn set_bit(self, index: u8, target: RegisterTarget) -> (Machine, usize) {
        (
            self.with_register(target, with_bit_set(self.register(target), index)),
            1,
        )
    }

    /// Sets one bit of the byte that a pair points at.
    #[verifier::opaque]
    pub open spec fn set_memory_bit(
        self,
        index: u8,
        target: DoubleRegisterTarget,
    ) -> (Machine, usize) {
        (
            self.with_pointee(target, with_bit_set(self.pointee(target), index)),
            3,
        )
    }

    /// Copies the complement of one bit of a register into the zero flag.
    #[verifier::opaque]
    pub open spec fn test_bit(self, index: u8, source: RegisterTarget) -> (Machine, usize) {
        (
            self.with_flags(self.bit_test_flags(self.register(source), index)),
            1,
        )
    }

    /// Copies the complement of one bit of the byte that a pair points at
    /// into the zero flag.
    #[verifier::opaque]
    pub open spec fn test_memory_bit(
        self,
        index: u8,
        source: DoubleRegisterTarget,
    ) -> (Machine, usize) {
        (
            self.with_flags(self.bit_test_flags(self.pointee(source), index)),
            2,
        )
    }

    /// Shifts a register left.
    #[verifier::opaque]
    pub open spec fn shift_register_left(
        self,
        operation: ShiftOp,
        target: RegisterTarget,
    ) -> (Machine, usize) {
        let carry = self.registers.f.carry;
        let value = self.register(target);
        (
            self.with_register(target, shifted_left(value, operation, carry)).with_flags(
                self.shift_left_flags(value, operation),
            ),
            1,
        )
    }

    /// Shifts the byte that a pair points at left.
    #[verifier::opaque]
    pub open spec fn shift_memory_left(
        self,
        operation: ShiftOp,
        target: DoubleRegisterTarget,
    ) -> (Machine, usize) {
        let carry = self.registers.f.carry;
        let value = self.pointee(target);
        (
            self.with_pointee(target, shifted_left(value, operation, carry)).with_flags(
                self.shift_left_flags(value, operation),
            ),
            3,
        )
    }

    /// Shifts a register right.
    #[verifier::opaque]
    pub open spec fn shift_register_right(
        self,
        operation: ShiftOp,
        target: RegisterTarget,
    ) -> (Machine, usize) {
        let carry = self.registers.f.carry;
        let value = self.register(target);
        (
            self.with_register(target, shifted_right(value, operation, carry)).with_flags(
                self.shift_right_flags(value, operation),
            ),
            1,
        )
    }

    /// Shifts the byte that a pair points at right.
    #[verifier::opaque]
    pub open spec fn shift_memory_right(
        self,
        operation: ShiftOp,
        target: DoubleRegisterTarget,
    ) -> (Machine, usize) {
        let carry = self.registers.f.carry;
        let value = self.pointee(target);
        (
            self.with_pointee(target, shifted_right(value, operation, carry)).with_flags(
                self.shift_right_flags(value, operation),
            ),
            3,
        )
    }

    /// Moves the lower nibble of a register into its upper nibble.
    #[verifier::opaque]
    pub open spec fn fold_register(self, target: RegisterTarget) -> (Machine, usize) {
        (
            self.with_register(target, nibbles_folded(self.register(target))).with_flags(
                self.fold_flags(),
            ),
            1,
        )
    }

    /// Moves the lower nibble of the byte that a pair points at into its
    /// upper nibble.
    #[verifier::opaque]
    pub open spec fn fold_memory(self, target: DoubleRegisterTarget) -> (Machine, usize) {
        (
            self.with_pointee(target, nibbles_folded(self.pointee(target))).with_flags(
                self.fold_flags(),
            ),
            3,
        )
    }

    /// The state that an instruction leaves, and the machine cycles that it
    /// takes. An instruction with an immediate operand reads it at the
    /// program counter and moves the program counter past it. A conditional
    /// jump, call or return takes more cycles when it is taken.
    pub open spec fn execute(self, instruction: Instruction) -> (Machine, usize) {
        match instruction {
            Instruction::NOP() => self.nop(),
            Instruction::ADD(target, include_carry) => self.add_register(target, include_carry),
            Instruction::ADDmem(target, include_carry) => self.add_memory(target, include_carry),
            Instruction::ADDn(include_carry) => self.add_immediate(include_carry),
            Instruction::ADD16(source) => self.add_pair(source),
            Instruction::ADD16SP() => self.add_stack_pointer(),
            Instruction::SUB(target, include_carry) => self.sub_register(target, include_carry),
            Instruction::SUBmem(target, include_carry) => self.sub_memory(target, include_carry),
            Instruction::SUBn(include_carry) => self.sub_immediate(include_carry),
            Instruction::CP(target) => self.compare_register(target),
            Instruction::CPmem(target) => self.compare_memory(target),
            Instruction::CPn() => self.compare_immediate(),
            Instruction::INC(target) => self.increment_register(target),
            Instruction::INCmem(target) => self.increment_memory(target),
            Instruction::INC16(target) => self.increment_pair(target),
            Instruction::INCSP() => self.increment_stack_pointer(),
            Instruction::DEC(target) => self.decrement_register(target),
            Instruction::DECmem(target) => self.decrement_memory(target),
            Instruction::DEC16(target) => self.decrement_pair(target),
            Instruction::DECSP() => self.decrement_stack_pointer(),
            Instruction::AND(target) => self.and_register(target),
            Instruction::ANDmem(target) => self.and_memory(target),
            Instruction::ANDn() => self.and_immediate(),
            Instruction::XOR(target) => self.xor_register(target),
            Instruction::XORmem(target) => self.xor_memory(target),
            Instruction::XORn() => self.xor_immediate(),
            Instruction::OR(target) => self.or_register(target),
            Instruction::ORmem(target) => self.or_memory(target),
            Instruction::ORn() => self.or_immediate(),
            Instruction::CCF() => self.complement_carry(),
            Instruction::SCF() => self.set_carry(),
            Instruction::CPL() => self.complement_accumulator(),
            Instruction::DAA() => self.decimal_adjust_accumulator(),
            Instruction::JumpNN(condition) => self.jump(condition),
            Instruction::JumpHL() => self.jump_to_hl(),
            Instruction::JumpRn(condition) => self.jump_relative(condition),
            Instruction::CallNN(condition) => self.call_conditional(condition),
            Instruction::Return(condition) => self.return_conditional(condition),
            Instruction::CallI(target) => self.call_fixed(target),
            Instruction::LoadRR(destination, source) => self.load_register(destination, source),
            Instruction::LoadRN(destination) => self.load_immediate(destination),
            Instruction::LoadRMem(destination, source, post_op) => self.load_from_memory(
                destination,
                source,
                post_op,
            ),
            Instruction::LoadMemR(destination, source, post_op) => self.store_to_memory(
                destination,
                source,
                post_op,
            ),
            Instruction::LoadMemN(destination) => self.store_immediate(destination),
            Instruction::LoadRNN(destination) => self.load_from_address(destination),
            Instruction::LoadNNR(source) => self.store_to_address(source),
            Instruction::LoadRHighR(destination, offset) => self.load_from_high_page(
                destination,
                offset,
            ),
            Instruction::LoadHighRR(offset, source) => self.store_to_high_page(offset, source),
            Instruction::LoadRHighN(destination) => self.load_from_high_page_immediate(destination),
            Instruction::LoadHighNR(source) => self.store_to_high_page_immediate(source),
            Instruction::LoadRRNN(destination) => self.load_pair_immediate(destination),
            Instruction::LoadNNSP() => self.store_stack_pointer(),
            Instruction::LoadSPNN() => self.load_stack_pointer_immediate(),
            Instruction::LoadSPRR(source) => self.load_stack_pointer(source),
            Instruction::LoadRRSPn(destination) => self.load_pair_stack_offset(destination),
            Instruction::ADDSPn() => self.add_stack_offset(),
            Instruction::PushRR(source) => self.push_pair(source),
            Instruction::PopRR(destination) => self.pop_pair(destination),
            Instruction::DI() => self.disable_interrupts(),
            Instruction::EI() => self.enable_interrupts(),
            Instruction::Reset(index, target) => self.reset_bit(index, target),
            Instruction::ResetMem(index, target) => self.reset_memory_bit(index, target),
            Instruction::SetBit(index, target) => self.set_bit(index, target),
            Instruction::SetMem(index, target) => self.set_memory_bit(index, target),
            Instruction::BitCopy(index, source) => self.test_bit(index, source),
            Instruction::BitCopyMem(index, source) => self.test_memory_bit(index, source),
            Instruction::LeftShift(operation, target) => self.shift_register_left(
                operation,
                target,
            ),
            Instruction::LeftShiftMem(operation, target) => self.shift_memory_left(
                operation,
                target,
            ),
            Instruction::RightShift(operation, target) => self.shift_register_right(
                operation,
                target,
            ),
            Instruction::RightShiftMem(operation, target) => self.shift_memory_right(
                operation,
                target,
            ),
            Instruction::Swap(target) => self.fold_register(target),
            Instruction::SwapMem(target) => self.fold_memory(target),
        }
    }

    /// The state after an instruction was entered into the record. A
    /// no-operation is only counted. Any other instruction becomes the first
    /// entry, with the count of the no-operations before it; the entries
    /// move down by one, the last one drops out, and the count starts again.
    pub open spec fn recorded(self, instruction: Instruction) -> Machine {
        if instruction == Instruction::NOP() {
            Machine {
                nop_count: if self.nop_count == usize::MAX {
                    0
                } else {
                    (self.nop_count + 1) as usize
                },
                ..self
            }
        } else {
            let entry = InstructionHistory {
                inst: instruction,
                pc: self.pc,
                nops: self.nop_count,
                spi: stack_depth(self.sp),
            };
            Machine {
                nop_count: 0,
                history: seq![entry] + self.history.subrange(0, self.history.len() - 1),
                ..self
            }
        }
    }

    /// The opcode that the next step decodes: the byte at the program
    /// counter, or the byte after it when the first is the prefix 0xCB.
    pub open spec fn fetched(self) -> (u8, bool) {
        if self.immediate() == 0xCB {
            (self.skip(1).immediate(), true)
        } else {
            (self.immediate(), false)
        }
    }

    /// The state after the opcode was fetched: the program counter stands
    /// behind the opcode and its prefix.
    pub open spec fn after_fetch(self) -> Machine {
        if self.immediate() == 0xCB {
            self.skip(2)
        } else {
            self.skip(1)
        }
    }

    /// One step: fetch, decode, record, execute.
    ///
    /// An opcode that stands for no instruction is a fault, and the state is
    /// left as it was after the fetch. Otherwise the instruction is recorded
    /// and executed; after that a program counter at or above 0xFFFD and a
    /// stack pointer of zero are faults, in that order. Without a fault the
    /// step gives the cycles of the instruction, and one more for a prefix.
    pub open spec fn step(self) -> (Machine, Result<usize, Fault>) {
        let (opcode, prefixed) = self.fetched();
        let fetched = self.after_fetch();
        match decode(opcode, prefixed) {
            None => (fetched, Err(Fault::UndefinedOpcode { opcode, prefixed })),
            Some(instruction) => {
                let (after, cycles) = fetched.recorded(instruction).execute(instruction);
                let total = if prefixed {
                    (cycles + 1) as usize
                } else {
                    cycles
                };
                if after.pc >= 0xFFFD {
                    (after, Err(Fault::ProgramCounterTooHigh))
                } else if after.sp == 0 {
                    (after, Err(Fault::StackPointerTooHigh))
                } else {
                    (after, Ok(total))
                }
            },
        }
    }
}

impl Machine {
    /// Every instruction takes at least one machine cycle and at most six.
    pub proof fn lemma_cycles_bounded(self, instruction: Instruction)
        ensures
            1 <= self.execute(instruction).1 <= 6,
    {
        reveal(Machine::nop);
        reveal(Machine::add_register);
        reveal(Machine::add_memory);
        reveal(Machine::add_immediate);
        reveal(Machine::add_pair);
        reveal(Machine::add_stack_pointer);
        reveal(Machine::sub_register);
        reveal(Machine::sub_memory);
        reveal(Machine::sub_immediate);
        reveal(Machine::compare_register);
        reveal(Machine::compare_memory);
        reveal(Machine::compare_immediate);
        reveal(Machine::increment_register);
        reveal(Machine::increment_memory);
        reveal(Machine::increment_pair);
        reveal(Machine::increment_stack_pointer);
        reveal(Machine::decrement_register);
        reveal(Machine::decrement_memory);
        reveal(Machine::decrement_pair);
        reveal(Machine::decrement_stack_pointer);
        reveal(Machine::and_register);
        reveal(Machine::and_memory);
        reveal(Machine::and_immediate);
        reveal(Machine::xor_register);
        reveal(Machine::xor_memory);
        reveal(Machine::xor_immediate);
        reveal(Machine::or_register);
        reveal(Machine::or_memory);
        reveal(Machine::or_immediate);
        reveal(Machine::complement_carry);
        reveal(Machine::set_carry);
        reveal(Machine::complement_accumulator);
        reveal(Machine::decimal_adjust_accumulator);
        reveal(Machine::jump);
        reveal(Machine::jump_to_hl);
        reveal(Machine::jump_relative);
        reveal(Machine::call_conditional);
        reveal(Machine::return_conditional);
        reveal(Machine::call_fixed);
        reveal(Machine::load_register);
        reveal(Machine::load_immediate);
        reveal(Machine::load_from_memory);
        reveal(Machine::store_to_memory);
        reveal(Machine::store_immediate);
        reveal(Machine::load_from_address);
        reveal(Machine::store_to_address);
        reveal(Machine::load_from_high_page);
        reveal(Machine::store_to_high_page);
        reveal(Machine::load_from_high_page_immediate);
        reveal(Machine::store_to_high_page_immediate);
        reveal(Machine::load_pair_immediate);
        reveal(Machine::store_stack_pointer);
        reveal(Machine::load_stack_pointer_immediate);
        reveal(Machine::load_stack_pointer);
        reveal(Machine::load_pair_stack_offset);
        reveal(Machine::add_stack_offset);
        reveal(Machine::push_pair);
        reveal(Machine::pop_pair);
        reveal(Machine::disable_interrupts);
        reveal(Machine::enable_interrupts);
        reveal(Machine::reset_bit);
        reveal(Machine::reset_memory_bit);
        reveal(Machine::set_bit);
        reveal(Machine::set_memory_bit);
        reveal(Machine::test_bit);
        reveal(Machine::test_memory_bit);
        reveal(Machine::shift_register_left);
        reveal(Machine::shift_memory_left);
        reveal(Machine::shift_register_right);
        reveal(Machine::shift_memory_right);
        reveal(Machine::fold_register);
        reveal(Machine::fold_memory);
    }

    /// A conditional jump, call or return takes strictly more cycles when it
    /// is taken than when it is not, whatever else the two states hold.
    pub proof fn lemma_taken_costs_more(self, other: Machine, condition: Conditional)
        requires
            self.holds(condition),
            !other.holds(condition),
        ensures
            self.execute(Instruction::JumpNN(condition)).1 > other.execute(
                Instruction::JumpNN(condition),
            ).1,
            self.execute(Instruction::JumpRn(condition)).1 > other.execute(
                Instruction::JumpRn(condition),
            ).1,
            self.execute(Instruction::CallNN(condition)).1 > other.execute(
                Instruction::CallNN(condition),
            ).1,
            self.execute(Instruction::Return(condition)).1 > other.execute(
                Instruction::Return(condition),
            ).1,
    {
        reveal(Machine::jump);
        reveal(Machine::jump_relative);
        reveal(Machine::call_conditional);
        reveal(Machine::return_conditional);
    }

    /// An increment and a decrement leave the carry as it was, on a register
    /// and in memory alike, and set zero by the result.
    pub proof fn lemma_increment_keeps_carry(
        self,
        target: RegisterTarget,
        pair: DoubleRegisterTarget,
    )
        ensures
            self.execute(Instruction::INC(target)).0.registers.f.carry == self.registers.f.carry,
            self.execute(Instruction::DEC(target)).0.registers.f.carry == self.registers.f.carry,
            self.execute(Instruction::INCmem(pair)).0.registers.f.carry
                == self.registers.f.carry,
            self.execute(Instruction::DECmem(pair)).0.registers.f.carry
                == self.registers.f.carry,
            self.execute(Instruction::INC(target)).0.register(target) == sum(
                self.register(target),
                1,
            ),
            self.execute(Instruction::INC(target)).0.registers.f.zero <==> self.register(target)
                == 255,
            self.execute(Instruction::DEC(target)).0.registers.f.zero <==> self.register(target)
                == 1,
    {
        reveal(Machine::increment_register);
        reveal(Machine::decrement_register);
        reveal(Machine::increment_memory);
        reveal(Machine::decrement_memory);
    }

    /// A bit test sets zero to the complement of the tested bit, sets the
    /// half-carry, clears subtract, and touches nothing else.
    pub proof fn lemma_bit_test(self, index: u8, source: RegisterTarget)
        ensures
            self.execute(Instruction::BitCopy(index, source)).0 == self.with_flags(
                FlagsRegister {
                    zero: !bit_is_set(self.register(source), index),
                    subtract: false,
                    half_carry: true,
                    carry: self.registers.f.carry,
                },
            ),
    {
        reveal(Machine::test_bit);
    }

    /// Every shift sets zero by its result and the carry by the bit that
    /// left the byte, and clears subtract and half-carry.
    pub proof fn lemma_shift_flags(self, operation: ShiftOp, target: RegisterTarget)
        ensures
            ({
                let after = self.execute(Instruction::LeftShift(operation, target)).0;
                &&& after.registers.f.zero <==> after.register(target) == 0
                &&& after.registers.f.carry <==> self.register(target) >= 128
                &&& !after.registers.f.subtract
                &&& !after.registers.f.half_carry
            }),
            ({
                let after = self.execute(Instruction::RightShift(operation, target)).0;
                &&& after.registers.f.zero <==> after.register(target) == 0
                &&& after.registers.f.carry <==> self.register(target) % 2 == 1
                &&& !after.registers.f.subtract
                &&& !after.registers.f.half_carry
            }),
    {
        reveal(Machine::shift_register_left);
        reveal(Machine::shift_register_right);
    }

    /// Adding a signed byte to the stack pointer clears zero and subtract,
    /// and takes half-carry and carry from the addition of the byte to the
    /// lower byte of the stack pointer. The result is the stack pointer
    /// moved by the signed value of the byte.
    pub proof fn lemma_stack_offset(self)
        ensures
            ({
                let after = self.execute(Instruction::ADDSPn()).0;
                &&& after.sp == displaced(self.sp, self.immediate())
                &&& after.registers.f == self.stack_offset_flags(self.immediate())
            }),
            ({
                let after = self.execute(Instruction::LoadRRSPn(DoubleRegisterTarget::HL)).0;
                &&& after.registers.hl() == displaced(self.sp, self.immediate())
                &&& after.sp == self.sp
                &&& after.registers.f == self.stack_offset_flags(self.immediate())
            }),
            ({
                let flags = self.stack_offset_flags(self.immediate());
                &&& !flags.zero
                &&& !flags.subtract
                &&& flags.half_carry <==> self.sp % 16 + self.immediate() % 16 > 15
                &&& flags.carry <==> self.sp % 256 + self.immediate() > 255
            }),
    {
        reveal(Machine::add_stack_offset);
        reveal(Machine::load_pair_stack_offset);
        let moved = displaced(self.sp, self.immediate());
        self.skip(1).registers.lemma_pair_round_trip(moved);
        let low = low_byte(self.sp);
        assert(low as int == self.sp as int % 256);
        assert(low as int % 16 == self.sp as int % 16) by {
            let q = self.sp as int / 256;
            assert(self.sp as int == 256 * q + low as int);
        }
    }

    /// A decimal adjustment clears the half-carry, leaves subtract as it
    /// was, sets zero by the adjusted accumulator, and never clears a carry
    /// that was set.
    pub proof fn lemma_decimal_adjust_flags(self)
        ensures
            ({
                let after = self.execute(Instruction::DAA()).0;
                &&& !after.registers.f.half_carry
                &&& after.registers.f.subtract == self.registers.f.subtract
                &&& after.registers.f.zero <==> after.registers.a == 0
                &&& self.registers.f.carry ==> after.registers.f.carry
            }),
    {
        reveal(Machine::decimal_adjust_accumulator);
    }

    /// A relative jump that is taken goes to the address behind its operand
    /// moved by the signed value of the operand.
    pub proof fn lemma_relative_jump(self, condition: Conditional)
        requires
            self.holds(condition),
        ensures
            self.execute(Instruction::JumpRn(condition)).0.pc == displaced(
                next(self.pc, 1),
                self.immediate(),
            ),
            signed(self.immediate()) == (if self.immediate() < 128 {
                self.immediate() as int
            } else {
                self.immediate() - 256
            }),
    {
        reveal(Machine::jump_relative);
    }

    /// A word that was pushed is the word that is popped, and the stack
    /// pointer is back where it was, wrapping included. The one exception is
    /// a push across the divider register, which stores zero whatever is
    /// written: there the law holds only of a byte that is zero.
    pub proof fn lemma_push_pop(self, value: u16)
        requires
            self.wf(),
            next(self.sp, -1) == DIVIDER_REGISTER ==> high_byte(value) == 0,
            next(self.sp, -2) == DIVIDER_REGISTER ==> low_byte(value) == 0,
        ensures
            self.pushed(value).top() == value,
            self.pushed(value).popped().sp == self.sp,
            self.pushed(value).popped().memory == self.pushed(value).memory,
    {
    }

    /// A step moves the program counter past the opcode before anything
    /// else, and a step that meets an undefined opcode changes nothing but
    /// the program counter.
    pub proof fn lemma_undefined_opcode(self)
        requires
            self.step().1 is Err,
            self.step().1->Err_0 is UndefinedOpcode,
        ensures
            self.step().0 == self.skip(1),
            is_undefined_opcode(self.immediate()),
            self.step().1 == Err::<usize, Fault>(
                Fault::UndefinedOpcode { opcode: self.immediate(), prefixed: false },
            ),
    {
        let (opcode, prefixed) = self.fetched();
        decode_is_total(opcode, prefixed);
    }
}

/// Every opcode behind the prefix is an instruction, and an opcode without
/// prefix is one exactly when it is not among the undefined opcodes. Every
/// instruction that decoding gives is well formed.
pub proof fn decode_is_total(byte: u8, prefixed: bool)
    ensures
        decode(byte, prefixed) is None <==> !prefixed && is_undefined_opcode(byte),
        decode(byte, prefixed) matches Some(instruction) ==> instruction.well_formed(),
{
    if prefixed {
    } else {
        let x = byte as int / 64;
        let y = (byte as int / 8) % 8;
        let z = byte as int % 8;
        assert(byte == 64 * x + 8 * y + z);
        assert(0 <= x < 4 && 0 <= y < 8 && 0 <= z < 8);
    }
}

} // verus!
