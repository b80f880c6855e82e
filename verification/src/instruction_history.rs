//! One entry of the record of executed instructions.

use vstd::prelude::*;
use crate::instruction::Instruction;

verus! {

/// An executed instruction with the state it was met in.
#[derive(Clone, Copy, Debug, PartialEq, Eq, Structural)]
pub struct InstructionHistory {
    /// The instruction.
    pub inst: Instruction,
    /// The program counter after the instruction was fetched.
    pub pc: u16,
    /// The number of words on the stack, counted from its usual base.
    pub spi: u32,
    /// The number of no-operations that went before.
    pub nops: usize,
}

impl InstructionHistory {
    /// The entry that fills the record before anything ran.
    pub open spec fn blank() -> InstructionHistory {
        InstructionHistory { inst: Instruction::NOP(), pc: 0, nops: 0, spi: 0 }
    }

    pub fn new() -> (entry: InstructionHistory)
        ensures
            entry == InstructionHistory::blank(),
    {
        InstructionHistory { inst: Instruction::NOP(), pc: 0, nops: 0, spi: 0 }
    }
}

} // verus!
