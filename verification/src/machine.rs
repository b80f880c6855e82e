//! The processor as the contracts see it: its state as plain values, and
//! the elementary readings of and changes to that state. What each
//! instruction does with them is written down in the module `semantics`.

use vstd::prelude::*;
use crate::alu::{carry_bit, next, sum};
use crate::instruction::{Conditional, DoubleRegisterTarget, PostOp, RegisterTarget};
use crate::instruction_history::InstructionHistory;
use crate::memory::store;
use crate::registers::{FlagsRegister, Registers};
use crate::word::{high_byte, low_byte, word};

verus! {

/// Number of entries in the record of executed instructions.
pub const HISTORY_SIZE: usize = 99;

/// A condition that stops the processor.
#[derive(Clone, Copy, Debug, PartialEq, Eq, Structural)]
pub enum Fault {
    /// The opcode stands for no instruction.
    UndefinedOpcode { opcode: u8, prefixed: bool },
    /// The program counter reached the last three bytes of the address
    /// space.
    ProgramCounterTooHigh,
    /// The stack pointer reached zero.
    StackPointerTooHigh,
}

/// The state of the processor.
pub struct Machine {
    pub registers: Registers,
    /// The program counter.
    pub pc: u16,
    /// The stack pointer.
    pub sp: u16,
    /// The 65536 bytes of the address space.
    pub memory: Seq<u8>,
    /// Whether the processor is stopped.
    pub stopped: bool,
    /// Whether the program has asked for interrupts to be served.
    pub master_interrupt_request: bool,
    /// The no-operations run since the last recorded instruction.
    pub nop_count: usize,
    /// The 99 entries of the record of executed instructions, newest first.
    pub history: Seq<InstructionHistory>,
}

/// The stack depth that the record keeps for a stack pointer: the words
/// between the pointer and the top of the address space, less one, wrapping
/// below zero.
pub open spec fn stack_depth(sp: u16) -> u32 {
    (((0x10000 - sp) / 2 - 1) % 0x1_0000_0000) as u32
}

impl Machine {
    /// The sizes that the state of a processor always has.
    pub open spec fn wf(self) -> bool {
        self.memory.len() == 0x10000 && self.history.len() == 99
    }

    /// The byte at an address.
    pub open spec fn read(self, address: u16) -> u8 {
        self.memory[address as int]
    }

    /// The state after a byte was written at an address.
    pub open spec fn write(self, address: u16, value: u8) -> Machine {
        Machine { memory: store(self.memory, address, value), ..self }
    }

    /// The value of a register.
    pub open spec fn register(self, target: RegisterTarget) -> u8 {
        match target {
            RegisterTarget::A => self.registers.a,
            RegisterTarget::B => self.registers.b,
            RegisterTarget::C => self.registers.c,
            RegisterTarget::D => self.registers.d,
            RegisterTarget::E => self.registers.e,
            RegisterTarget::H => self.registers.h,
            RegisterTarget::L => self.registers.l,
        }
    }

    /// The state after a register was set.
    pub open spec fn with_register(self, target: RegisterTarget, value: u8) -> Machine {
        let r = self.registers;
        Machine {
            registers: match target {
                RegisterTarget::A => Registers { a: value, ..r },
                RegisterTarget::B => Registers { b: value, ..r },
                RegisterTarget::C => Registers { c: value, ..r },
                RegisterTarget::D => Registers { d: value, ..r },
                RegisterTarget::E => Registers { e: value, ..r },
                RegisterTarget::H => Registers { h: value, ..r },
                RegisterTarget::L => Registers { l: value, ..r },
            },
            ..self
        }
    }

    /// The value of a register pair.
    pub open spec fn pair(self, target: DoubleRegisterTarget) -> u16 {
        match target {
            DoubleRegisterTarget::AF => self.registers.af(),
            DoubleRegisterTarget::BC => self.registers.bc(),
            DoubleRegisterTarget::DE => self.registers.de(),
            DoubleRegisterTarget::HL => self.registers.hl(),
        }
    }

    /// The state after a register pair was set.
    pub open spec fn with_pair(self, target: DoubleRegisterTarget, value: u16) -> Machine {
        Machine {
            registers: match target {
                DoubleRegisterTarget::AF => self.registers.with_af(value),
                DoubleRegisterTarget::BC => self.registers.with_bc(value),
                DoubleRegisterTarget::DE => self.registers.with_de(value),
                DoubleRegisterTarget::HL => self.registers.with_hl(value),
            },
            ..self
        }
    }

    /// The byte that a register pair points at.
    pub open spec fn pointee(self, target: DoubleRegisterTarget) -> u8 {
        self.read(self.pair(target))
    }

    /// The state after a byte was written where a register pair points.
    pub open spec fn with_pointee(self, target: DoubleRegisterTarget, value: u8) -> Machine {
        self.write(self.pair(target), value)
    }

    /// The state with other flags.
    pub open spec fn with_flags(self, flags: FlagsRegister) -> Machine {
        Machine { registers: Registers { f: flags, ..self.registers }, ..self }
    }

    /// The state with another program counter.
    pub open spec fn at(self, pc: u16) -> Machine {
        Machine { pc, ..self }
    }

    /// The state with another stack pointer.
    pub open spec fn with_sp(self, sp: u16) -> Machine {
        Machine { sp, ..self }
    }

    /// The byte at the program counter.
    pub open spec fn immediate(self) -> u8 {
        self.read(self.pc)
    }

    /// The word at the program counter, lower byte first.
    pub open spec fn immediate_word(self) -> u16 {
        word(self.read(next(self.pc, 1)), self.read(self.pc))
    }

    /// The state after the program counter moved up by `count` bytes.
    pub open spec fn skip(self, count: int) -> Machine {
        self.at(next(self.pc, count))
    }

    /// Whether a condition holds of the flags.
    pub open spec fn holds(self, condition: Conditional) -> bool {
        match condition {
            Conditional::ZeroFlag => self.registers.f.zero,
            Conditional::NotZeroFlag => !self.registers.f.zero,
            Conditional::CarryFlag => self.registers.f.carry,
            Conditional::NotCarryFlag => !self.registers.f.carry,
            Conditional::Unconditional => true,
        }
    }

    /// The state after a word was pushed: the upper byte is written just
    /// below the stack pointer, the lower byte below that, and the stack
    /// pointer ends at the lower byte.
    pub open spec fn pushed(self, value: u16) -> Machine {
        let upper = next(self.sp, -1);
        let lower = next(self.sp, -2);
        self.write(upper, high_byte(value)).write(lower, low_byte(value)).with_sp(lower)
    }

    /// The word on top of the stack: the lower byte at the stack pointer,
    /// the upper byte above it.
    pub open spec fn top(self) -> u16 {
        word(self.read(next(self.sp, 1)), self.read(self.sp))
    }

    /// The state after a word was popped.
    pub open spec fn popped(self) -> Machine {
        self.with_sp(next(self.sp, 2))
    }

    /// The state after a call: the program counter is pushed and replaced.
    pub open spec fn called(self, address: u16) -> Machine {
        self.pushed(self.pc).at(address)
    }

    /// The state after a register pair was adjusted following a load
    /// through it.
    pub open spec fn post(self, target: DoubleRegisterTarget, post_op: PostOp) -> Machine {
        match post_op {
            PostOp::Nop => self,
            PostOp::Increment => self.with_pair(target, next(self.pair(target), 1)),
            PostOp::Decrement => self.with_pair(target, next(self.pair(target), -1)),
        }
    }

    /// An operand with the carry folded in where the instruction asks for
    /// it. The carry is added to the operand, wrapping, before the operand
    /// is used.
    pub open spec fn with_carry(self, value: u8, include_carry: bool) -> u8 {
        if include_carry {
            sum(value, carry_bit(self.registers.f.carry))
        } else {
            value
        }
    }
}

} // verus!
