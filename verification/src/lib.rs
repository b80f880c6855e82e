//! A cycle-counting emulator core for the Sharp LR35902, the processor of
//! the Game Boy.
//!
//! The crate holds the instruction decoder, the execution engine with its
//! register file and address space, the timers and the interrupt logic.
//! Graphics, sound, input and cartridge mappers are outside it: they reach
//! the core through the bytes of the address space.
//!
//! Every executable function has a contract over a model of the state:
//! [`machine::Machine`] stands for the processor and [`runtime::System`] for
//! the runtime. What an instruction does to the model is written down in
//! [`semantics`], one function for each instruction.

pub mod alu;
pub mod cpu;
pub mod instruction;
pub mod instruction_history;
pub mod interrupt;
pub mod machine;
pub mod memory;
pub mod registers;
pub mod runtime;
pub mod semantics;
pub mod timer_control;
pub mod word;
