//! The instruction set and its decoder.

use vstd::prelude::*;
use vstd::std_specs::convert::FromSpecImpl;

verus! {

/// What is done to the address register after a load through it.
#[derive(Clone, Copy, Debug, PartialEq, Eq, Structural)]
pub enum PostOp {
    Nop,
    Increment,
    Decrement,
}

/// How the bit that a shift pushes out, and the bit that it pulls in, are
/// treated.
///
/// `Rotate` feeds the outgoing bit back in at the other end; `IncludeCarry`
/// feeds the old carry flag in. `RotateZ` and `IncludeCarryZ` are the same two
/// operations as the short accumulator forms encode them. `Arithmetic` keeps
/// the sign bit on a right shift, and `Logical` pulls in a zero.
#[derive(Clone, Copy, Debug, PartialEq, Eq, Structural)]
pub enum ShiftOp {
    Rotate,
    RotateZ,
    IncludeCarry,
    IncludeCarryZ,
    Arithmetic,
    Logical,
}

/// The condition under which a jump, call or return is taken.
#[derive(Clone, Copy, Debug, PartialEq, Eq, Structural)]
pub enum Conditional {
    ZeroFlag,
    NotZeroFlag,
    CarryFlag,
    NotCarryFlag,
    Unconditional,
}

/// The eight fixed call targets in the first page of memory.
#[derive(Clone, Copy, Debug, PartialEq, Eq, Structural)]
pub enum InvariantFunction {
    F00,
    F08,
    F10,
    F18,
    F20,
    F28,
    F30,
    F38,
}

/// One of the seven eight-bit registers.
#[derive(Clone, Copy, Debug, PartialEq, Eq, Structural)]
pub enum RegisterTarget {
    A,
    B,
    C,
    D,
    E,
    H,
    L,
}

/// One of the four register pairs.
#[derive(Clone, Copy, Debug, PartialEq, Eq, Structural)]
pub enum DoubleRegisterTarget {
    AF,
    BC,
    DE,
    HL,
}

/// A decoded instruction with its operands.
#[allow(non_camel_case_types)]
#[derive(Clone, Copy, Debug, PartialEq, Eq, Structural)]
pub enum Instruction {
    /// Does nothing.
    NOP(),
    /// Adds a register to A; the flag asks for the carry to be added too.
    ADD(RegisterTarget, bool),
    /// Adds the byte that a pair points at to A, with or without the carry.
    ADDmem(DoubleRegisterTarget, bool),
    /// Adds the immediate byte to A, with or without the carry.
    ADDn(bool),
    /// Adds a pair to HL.
    ADD16(DoubleRegisterTarget),
    /// Adds the stack pointer to HL.
    ADD16SP(),
    /// Subtracts a register from A, with or without the carry.
    SUB(RegisterTarget, bool),
    /// Subtracts the byte that a pair points at from A.
    SUBmem(DoubleRegisterTarget, bool),
    /// Subtracts the immediate byte from A.
    SUBn(bool),
    /// Compares a register with A.
    CP(RegisterTarget),
    /// Compares the byte that a pair points at with A.
    CPmem(DoubleRegisterTarget),
    /// Compares the immediate byte with A.
    CPn(),
    /// Increments a register.
    INC(RegisterTarget),
    /// Increments the byte that a pair points at.
    INCmem(DoubleRegisterTarget),
    /// Increments a pair.
    INC16(DoubleRegisterTarget),
    /// Increments the stack pointer.
    INCSP(),
    /// Decrements a register.
    DEC(RegisterTarget),
    /// Decrements the byte that a pair points at.
    DECmem(DoubleRegisterTarget),
    /// Decrements a pair.
    DEC16(DoubleRegisterTarget),
    /// Decrements the stack pointer.
    DECSP(),
    /// Bitwise and of a register into A.
    AND(RegisterTarget),
    /// Bitwise and of the byte that a pair points at into A.
    ANDmem(DoubleRegisterTarget),
    /// Bitwise and of the immediate byte into A.
    ANDn(),
    /// Bitwise exclusive or of a register into A.
    XOR(RegisterTarget),
    /// Bitwise exclusive or of the byte that a pair points at into A.
    XORmem(DoubleRegisterTarget),
    /// Bitwise exclusive or of the immediate byte into A.
    XORn(),
    /// Bitwise or of a register into A.
    OR(RegisterTarget),
    /// Bitwise or of the byte that a pair points at into A.
    ORmem(DoubleRegisterTarget),
    /// Bitwise or of the immediate byte into A.
    ORn(),
    /// Flips the carry flag.
    CCF(),
    /// Sets the carry flag.
    SCF(),
    /// Complements A.
    CPL(),
    /// Adjusts A to packed decimal after an addition or subtraction.
    DAA(),
    /// Jumps to the immediate address.
    JumpNN(Conditional),
    /// Jumps to the address in HL.
    JumpHL(),
    /// Jumps by the signed immediate offset.
    JumpRn(Conditional),
    /// Pushes the program counter and jumps to the immediate address.
    CallNN(Conditional),
    /// Pops the program counter.
    Return(Conditional),
    /// Pushes the program counter and jumps to a fixed target.
    CallI(InvariantFunction),
    /// Copies the second register into the first.
    LoadRR(RegisterTarget, RegisterTarget),
    /// Loads the immediate byte into a register.
    LoadRN(RegisterTarget),
    /// Loads the byte that a pair points at into a register, then adjusts
    /// the pair.
    LoadRMem(RegisterTarget, DoubleRegisterTarget, PostOp),
    /// Stores a register where a pair points, then adjusts the pair.
    LoadMemR(DoubleRegisterTarget, RegisterTarget, PostOp),
    /// Stores the immediate byte where a pair points.
    LoadMemN(DoubleRegisterTarget),
    /// Loads the byte at the immediate address into a register.
    LoadRNN(RegisterTarget),
    /// Stores a register at the immediate address.
    LoadNNR(RegisterTarget),
    /// Loads into the first register the byte in the high page at the
    /// offset held by the second.
    LoadRHighR(RegisterTarget, RegisterTarget),
    /// Stores the second register in the high page at the offset held by
    /// the first.
    LoadHighRR(RegisterTarget, RegisterTarget),
    /// Loads into a register the byte in the high page at the immediate
    /// offset.
    LoadRHighN(RegisterTarget),
    /// Stores a register in the high page at the immediate offset.
    LoadHighNR(RegisterTarget),
    /// Loads the immediate word into a pair.
    LoadRRNN(DoubleRegisterTarget),
    /// Stores the lower byte of the stack pointer at the immediate address
    /// and zero in the byte after it.
    LoadNNSP(),
    /// Loads the immediate word into the stack pointer.
    LoadSPNN(),
    /// Copies a pair into the stack pointer.
    LoadSPRR(DoubleRegisterTarget),
    /// Loads into a pair the stack pointer plus the signed immediate offset.
    LoadRRSPn(DoubleRegisterTarget),
    /// Adds the signed immediate offset to the stack pointer.
    ADDSPn(),
    /// Pushes a pair.
    PushRR(DoubleRegisterTarget),
    /// Pops a pair.
    PopRR(DoubleRegisterTarget),
    /// Leaves the interrupt switch as it is. Interrupts are switched off
    /// only by serving one.
    DI(),
    /// Asks for interrupts to be served. The request takes effect after the
    /// instruction that follows.
    EI(),
    /// Clears one bit of a register.
    Reset(u8, RegisterTarget),
    /// Clears one bit of the byte that a pair points at.
    ResetMem(u8, DoubleRegisterTarget),
    /// Sets one bit of a register.
    SetBit(u8, RegisterTarget),
    /// Sets one bit of the byte that a pair points at.
    SetMem(u8, DoubleRegisterTarget),
    /// Copies the complement of one bit of a register into the zero flag.
    BitCopy(u8, RegisterTarget),
    /// Copies the complement of one bit of the byte that a pair points at
    /// into the zero flag.
    BitCopyMem(u8, DoubleRegisterTarget),
    /// Shifts a register left.
    LeftShift(ShiftOp, RegisterTarget),
    /// Shifts the byte that a pair points at left.
    LeftShiftMem(ShiftOp, DoubleRegisterTarget),
    /// Shifts a register right.
    RightShift(ShiftOp, RegisterTarget),
    /// Shifts the byte that a pair points at right.
    RightShiftMem(ShiftOp, DoubleRegisterTarget),
    /// Moves the lower nibble of a register into its upper nibble.
    Swap(RegisterTarget),
    /// Moves the lower nibble of the byte that a pair points at into its
    /// upper nibble.
    SwapMem(DoubleRegisterTarget),
}

impl InvariantFunction {
    /// The address that the call target stands for.
    pub open spec fn address(self) -> u16 {
        match self {
            InvariantFunction::F00 => 0x0000,
            InvariantFunction::F08 => 0x0008,
            InvariantFunction::F10 => 0x0010,
            InvariantFunction::F18 => 0x0018,
            InvariantFunction::F20 => 0x0020,
            InvariantFunction::F28 => 0x0028,
            InvariantFunction::F30 => 0x0030,
            InvariantFunction::F38 => 0x0038,
        }
    }
}

impl From<InvariantFunction> for u16 {
    fn from(function: InvariantFunction) -> (address: u16) {
        match function {
            InvariantFunction::F00 => 0x0000_u16,
            InvariantFunction::F08 => 0x0008_u16,
            InvariantFunction::F10 => 0x0010_u16,
            InvariantFunction::F18 => 0x0018_u16,
            InvariantFunction::F20 => 0x0020_u16,
            InvariantFunction::F28 => 0x0028_u16,
            InvariantFunction::F30 => 0x0030_u16,
            InvariantFunction::F38 => 0x0038_u16,
        }
    }
}

impl FromSpecImpl<InvariantFunction> for u16 {
    open spec fn obeys_from_spec() -> bool {
        true
    }

    open spec fn from_spec(function: InvariantFunction) -> u16 {
        function.address()
    }
}

/// The register that the three-bit operand field `index` names. The value 6
/// names no register: it stands for the byte that HL points at.
pub open spec fn register_at(index: int) -> RegisterTarget {
    if index == 0 {
        RegisterTarget::B
    } else if index == 1 {
        RegisterTarget::C
    } else if index == 2 {
        RegisterTarget::D
    } else if index == 3 {
        RegisterTarget::E
    } else if index == 4 {
        RegisterTarget::H
    } else if index == 5 {
        RegisterTarget::L
    } else {
        RegisterTarget::A
    }
}

/// The pair that a two-bit field names where the last pair is AF.
pub open spec fn pair_at(index: int) -> DoubleRegisterTarget {
    if index == 0 {
        DoubleRegisterTarget::BC
    } else if index == 1 {
        DoubleRegisterTarget::DE
    } else if index == 2 {
        DoubleRegisterTarget::HL
    } else {
        DoubleRegisterTarget::AF
    }
}

/// The condition that a two-bit field names.
pub open spec fn condition_at(index: int) -> Conditional {
    if index == 0 {
        Conditional::NotZeroFlag
    } else if index == 1 {
        Conditional::ZeroFlag
    } else if index == 2 {
        Conditional::NotCarryFlag
    } else {
        Conditional::CarryFlag
    }
}

/// The fixed call target that a three-bit field names.
pub open spec fn restart_at(index: int) -> InvariantFunction {
    if index == 0 {
        InvariantFunction::F00
    } else if index == 1 {
        InvariantFunction::F08
    } else if index == 2 {
        InvariantFunction::F10
    } else if index == 3 {
        InvariantFunction::F18
    } else if index == 4 {
        InvariantFunction::F20
    } else if index == 5 {
        InvariantFunction::F28
    } else if index == 6 {
        InvariantFunction::F30
    } else {
        InvariantFunction::F38
    }
}

/// The arithmetic or logic operation `operation` (0 to 7: add, add with
/// carry, subtract, subtract with carry, and, exclusive or, or, compare) on
/// the operand that the field `operand` names.
pub open spec fn decode_alu(operation: int, operand: int) -> Instruction {
    let r = register_at(operand);
    let hl = DoubleRegisterTarget::HL;
    if operand == 6 {
        if operation == 0 {
            Instruction::ADDmem(hl, false)
        } else if operation == 1 {
            Instruction::ADDmem(hl, true)
        } else if operation == 2 {
            Instruction::SUBmem(hl, false)
        } else if operation == 3 {
            Instruction::SUBmem(hl, true)
        } else if operation == 4 {
            Instruction::ANDmem(hl)
        } else if operation == 5 {
            Instruction::XORmem(hl)
        } else if operation == 6 {
            Instruction::ORmem(hl)
        } else {
            Instruction::CPmem(hl)
        }
    } else {
        if operation == 0 {
            Instruction::ADD(r, false)
        } else if operation == 1 {
            Instruction::ADD(r, true)
        } else if operation == 2 {
            Instruction::SUB(r, false)
        } else if operation == 3 {
            Instruction::SUB(r, true)
        } else if operation == 4 {
            Instruction::AND(r)
        } else if operation == 5 {
            Instruction::XOR(r)
        } else if operation == 6 {
            Instruction::OR(r)
        } else {
            Instruction::CP(r)
        }
    }
}

/// The arithmetic or logic operation `operation` on the immediate byte.
pub open spec fn decode_alu_immediate(operation: int) -> Instruction {
    if operation == 0 {
        Instruction::ADDn(false)
    } else if operation == 1 {
        Instruction::ADDn(true)
    } else if operation == 2 {
        Instruction::SUBn(false)
    } else if operation == 3 {
        Instruction::SUBn(true)
    } else if operation == 4 {
        Instruction::ANDn()
    } else if operation == 5 {
        Instruction::XORn()
    } else if operation == 6 {
        Instruction::ORn()
    } else {
        Instruction::CPn()
    }
}

/// The first quarter of the opcode space, 0x00 to 0x3F, by the middle field
/// `y` and the low field `z` of the opcode.
pub open spec fn decode_low_quarter(y: int, z: int) -> Option<Instruction> {
    let a = RegisterTarget::A;
    let hl = DoubleRegisterTarget::HL;
    if z == 0 {
        if y == 0 {
            Some(Instruction::NOP())
        } else if y == 1 {
            Some(Instruction::LoadNNSP())
        } else if y == 2 {
            None
        } else if y == 3 {
            Some(Instruction::JumpRn(Conditional::Unconditional))
        } else {
            Some(Instruction::JumpRn(condition_at(y - 4)))
        }
    } else if z == 1 {
        if y % 2 == 0 {
            if y == 6 {
                Some(Instruction::LoadSPNN())
            } else {
                Some(Instruction::LoadRRNN(pair_at(y / 2)))
            }
        } else {
            if y == 7 {
                Some(Instruction::ADD16SP())
            } else {
                Some(Instruction::ADD16(pair_at(y / 2)))
            }
        }
    } else if z == 2 {
        let pair = if y < 4 {
            pair_at(y / 2)
        } else {
            hl
        };
        let post = if y < 4 {
            PostOp::Nop
        } else if y < 6 {
            PostOp::Increment
        } else {
            PostOp::Decrement
        };
        if y % 2 == 0 {
            Some(Instruction::LoadMemR(pair, a, post))
        } else {
            Some(Instruction::LoadRMem(a, pair, post))
        }
    } else if z == 3 {
        if y % 2 == 0 {
            if y == 6 {
                Some(Instruction::INCSP())
            } else {
                Some(Instruction::INC16(pair_at(y / 2)))
            }
        } else {
            if y == 7 {
                Some(Instruction::DECSP())
            } else {
                Some(Instruction::DEC16(pair_at(y / 2)))
            }
        }
    } else if z == 4 {
        if y == 6 {
            Some(Instruction::INCmem(hl))
        } else {
            Some(Instruction::INC(register_at(y)))
        }
    } else if z == 5 {
        if y == 6 {
            Some(Instruction::DECmem(hl))
        } else {
            Some(Instruction::DEC(register_at(y)))
        }
    } else if z == 6 {
        if y == 6 {
            Some(Instruction::LoadMemN(hl))
        } else {
            Some(Instruction::LoadRN(register_at(y)))
        }
    } else {
        if y == 0 {
            Some(Instruction::LeftShift(ShiftOp::RotateZ, a))
        } else if y == 1 {
            Some(Instruction::RightShift(ShiftOp::RotateZ, a))
        } else if y == 2 {
            Some(Instruction::LeftShift(ShiftOp::IncludeCarryZ, a))
        } else if y == 3 {
            Some(Instruction::RightShift(ShiftOp::IncludeCarryZ, a))
        } else if y == 4 {
            Some(Instruction::DAA())
        } else if y == 5 {
            Some(Instruction::CPL())
        } else if y == 6 {
            Some(Instruction::SCF())
        } else {
            Some(Instruction::CCF())
        }
    }
}

/// The second quarter, 0x40 to 0x7F: loads between registers and the byte
/// that HL points at. Loading that byte into itself is not an instruction.
pub open spec fn decode_load_quarter(y: int, z: int) -> Option<Instruction> {
    let hl = DoubleRegisterTarget::HL;
    if y == 6 && z == 6 {
        None
    } else if z == 6 {
        Some(Instruction::LoadRMem(register_at(y), hl, PostOp::Nop))
    } else if y == 6 {
        Some(Instruction::LoadMemR(hl, register_at(z), PostOp::Nop))
    } else {
        Some(Instruction::LoadRR(register_at(y), register_at(z)))
    }
}

/// The last quarter, 0xC0 to 0xFF: control flow, the stack, the high page
/// and arithmetic on immediates.
pub open spec fn decode_high_quarter(y: int, z: int) -> Option<Instruction> {
    let a = RegisterTarget::A;
    let c = RegisterTarget::C;
    let hl = DoubleRegisterTarget::HL;
    if z == 0 {
        if y < 4 {
            Some(Instruction::Return(condition_at(y)))
        } else if y == 4 {
            Some(Instruction::LoadHighNR(a))
        } else if y == 5 {
            Some(Instruction::ADDSPn())
        } else if y == 6 {
            Some(Instruction::LoadRHighN(a))
        } else {
            Some(Instruction::LoadRRSPn(hl))
        }
    } else if z == 1 {
        if y % 2 == 0 {
            Some(Instruction::PopRR(pair_at(y / 2)))
        } else if y == 1 || y == 3 {
            Some(Instruction::Return(Conditional::Unconditional))
        } else if y == 5 {
            Some(Instruction::JumpHL())
        } else {
            Some(Instruction::LoadSPRR(hl))
        }
    } else if z == 2 {
        if y < 4 {
            Some(Instruction::JumpNN(condition_at(y)))
        } else if y == 4 {
            Some(Instruction::LoadHighRR(c, a))
        } else if y == 5 {
            Some(Instruction::LoadNNR(a))
        } else if y == 6 {
            Some(Instruction::LoadRHighR(a, c))
        } else {
            Some(Instruction::LoadRNN(a))
        }
    } else if z == 3 {
        if y == 0 {
            Some(Instruction::JumpNN(Conditional::Unconditional))
        } else if y == 6 {
            Some(Instruction::DI())
        } else if y == 7 {
            Some(Instruction::EI())
        } else {
            None
        }
    } else if z == 4 {
        if y < 4 {
            Some(Instruction::CallNN(condition_at(y)))
        } else {
            None
        }
    } else if z == 5 {
        if y % 2 == 0 {
            Some(Instruction::PushRR(pair_at(y / 2)))
        } else if y == 1 {
            Some(Instruction::CallNN(Conditional::Unconditional))
        } else {
            None
        }
    } else if z == 6 {
        Some(decode_alu_immediate(y))
    } else {
        Some(Instruction::CallI(restart_at(y)))
    }
}

/// What an opcode without prefix means. The opcode is read as three fields:
/// the upper two bits choose the quarter of the table, the middle three and
/// the lower three bits choose operation and operand within it.
pub open spec fn decode_unprefixed(byte: u8) -> Option<Instruction> {
    let x = byte as int / 64;
    let y = (byte as int / 8) % 8;
    let z = byte as int % 8;
    if x == 0 {
        decode_low_quarter(y, z)
    } else if x == 1 {
        decode_load_quarter(y, z)
    } else if x == 2 {
        Some(decode_alu(y, z))
    } else {
        decode_high_quarter(y, z)
    }
}

/// The shift, rotate or swap that the field `y` names, on a register.
pub open spec fn decode_shift(y: int, r: RegisterTarget) -> Instruction {
    if y == 0 {
        Instruction::LeftShift(ShiftOp::Rotate, r)
    } else if y == 1 {
        Instruction::RightShift(ShiftOp::Rotate, r)
    } else if y == 2 {
        Instruction::LeftShift(ShiftOp::IncludeCarry, r)
    } else if y == 3 {
        Instruction::RightShift(ShiftOp::IncludeCarry, r)
    } else if y == 4 {
        Instruction::LeftShift(ShiftOp::Arithmetic, r)
    } else if y == 5 {
        Instruction::RightShift(ShiftOp::Arithmetic, r)
    } else if y == 6 {
        Instruction::Swap(r)
    } else {
        Instruction::RightShift(ShiftOp::Logical, r)
    }
}

/// The shift, rotate or swap that the field `y` names, on the byte that a
/// pair points at.
pub open spec fn decode_shift_memory(y: int, pair: DoubleRegisterTarget) -> Instruction {
    if y == 0 {
        Instruction::LeftShiftMem(ShiftOp::Rotate, pair)
    } else if y == 1 {
        Instruction::RightShiftMem(ShiftOp::Rotate, pair)
    } else if y == 2 {
        Instruction::LeftShiftMem(ShiftOp::IncludeCarry, pair)
    } else if y == 3 {
        Instruction::RightShiftMem(ShiftOp::IncludeCarry, pair)
    } else if y == 4 {
        Instruction::LeftShiftMem(ShiftOp::Arithmetic, pair)
    } else if y == 5 {
        Instruction::RightShiftMem(ShiftOp::Arithmetic, pair)
    } else if y == 6 {
        Instruction::SwapMem(pair)
    } else {
        Instruction::RightShiftMem(ShiftOp::Logical, pair)
    }
}

/// What an opcode after the prefix means: the upper two bits choose between
/// shifts, bit tests, bit resets and bit sets, the middle three bits give the
/// kind of shift or the bit index, and the lower three bits the operand.
pub open spec fn decode_prefixed(byte: u8) -> Instruction {
    let x = byte as int / 64;
    let y = (byte as int / 8) % 8;
    let z = byte as int % 8;
    let r = register_at(z);
    let hl = DoubleRegisterTarget::HL;
    if z == 6 {
        if x == 0 {
            decode_shift_memory(y, hl)
        } else if x == 1 {
            Instruction::BitCopyMem(y as u8, hl)
        } else if x == 2 {
            Instruction::ResetMem(y as u8, hl)
        } else {
            Instruction::SetMem(y as u8, hl)
        }
    } else {
        if x == 0 {
            decode_shift(y, r)
        } else if x == 1 {
            Instruction::BitCopy(y as u8, r)
        } else if x == 2 {
            Instruction::Reset(y as u8, r)
        } else {
            Instruction::SetBit(y as u8, r)
        }
    }
}

/// What an opcode means, with or without the prefix before it.
pub open spec fn decode(byte: u8, prefixed: bool) -> Option<Instruction> {
    if prefixed {
        Some(decode_prefixed(byte))
    } else {
        decode_unprefixed(byte)
    }
}

/// The opcodes without prefix that stand for no instruction: the stop and
/// halt opcodes, the prefix itself, and the eleven holes of the last
/// quarter.
pub open spec fn is_undefined_opcode(byte: u8) -> bool {
    byte == 0x10 || byte == 0x76 || byte == 0xCB || byte == 0xD3 || byte == 0xDB || byte == 0xDD
        || byte == 0xE3 || byte == 0xE4 || byte == 0xEB || byte == 0xEC || byte == 0xED || byte
        == 0xF4 || byte == 0xFC || byte == 0xFD
}

impl Instruction {
    /// Holds when the bit index of a bit instruction lies between 0 and 7.
    /// Every other instruction is well formed as it stands.
    pub open spec fn well_formed(self) -> bool {
        match self {
            Instruction::Reset(index, _) => index <= 7,
            Instruction::ResetMem(index, _) => index <= 7,
            Instruction::SetBit(index, _) => index <= 7,
            Instruction::SetMem(index, _) => index <= 7,
            Instruction::BitCopy(index, _) => index <= 7,
            Instruction::BitCopyMem(index, _) => index <= 7,
            _ => true,
        }
    }

    /// Decodes one opcode. `prefixed` says that the prefix byte came before
    /// it. Every prefixed opcode is an instruction; without the prefix
    /// exactly the opcodes of `is_undefined_opcode` are none. A decoded
    /// instruction is well formed.
    pub fn from_byte(byte: u8, prefixed: bool) -> (instruction: Option<Instruction>)
        ensures
            instruction == decode(byte, prefixed),
            instruction.is_none() <==> !prefixed && is_undefined_opcode(byte),
            instruction matches Some(i) ==> i.well_formed(),
    {
        if prefixed {
            Instruction::from_byte_prefixed(byte)
        } else {
            Instruction::from_byte_not_prefixed(byte)
        }
    }

    /// The table of opcodes without prefix.
    pub fn from_byte_not_prefixed(byte: u8) -> (instruction: Option<Instruction>)
        ensures
            instruction == decode_unprefixed(byte),
            instruction.is_none() <==> is_undefined_opcode(byte),
            instruction matches Some(i) ==> i.well_formed(),
    {
        match byte {
            0x00 => Some(Instruction::NOP()),
            0x01 => Some(Instruction::LoadRRNN(DoubleRegisterTarget::BC)),
            0x02 => Some(
                Instruction::LoadMemR(DoubleRegisterTarget::BC, RegisterTarget::A, PostOp::Nop),
            ),
            0x03 => Some(Instruction::INC16(DoubleRegisterTarget::BC)),
            0x04 => Some(Instruction::INC(RegisterTarget::B)),
            0x05 => Some(Instruction::DEC(RegisterTarget::B)),
            0x06 => Some(Instruction::LoadRN(RegisterTarget::B)),
            0x07 => Some(Instruction::LeftShift(ShiftOp::RotateZ, RegisterTarget::A)),
            0x08 => Some(Instruction::LoadNNSP()),
            0x09 => Some(Instruction::ADD16(DoubleRegisterTarget::BC)),
            0x0A => Some(
                Instruction::LoadRMem(RegisterTarget::A, DoubleRegisterTarget::BC, PostOp::Nop),
            ),
            0x0B => Some(Instruction::DEC16(DoubleRegisterTarget::BC)),
            0x0C => Some(Instruction::INC(RegisterTarget::C)),
            0x0D => Some(Instruction::DEC(RegisterTarget::C)),
            0x0E => Some(Instruction::LoadRN(RegisterTarget::C)),
            0x0F => Some(Instruction::RightShift(ShiftOp::RotateZ, RegisterTarget::A)),
            0x11 => Some(Instruction::LoadRRNN(DoubleRegisterTarget::DE)),
            0x12 => Some(
                Instruction::LoadMemR(DoubleRegisterTarget::DE, RegisterTarget::A, PostOp::Nop),
            ),
            0x13 => Some(Instruction::INC16(DoubleRegisterTarget::DE)),
            0x14 => Some(Instruction::INC(RegisterTarget::D)),
            0x15 => Some(Instruction::DEC(RegisterTarget::D)),
            0x16 => Some(Instruction::LoadRN(RegisterTarget::D)),
            0x17 => Some(Instruction::LeftShift(ShiftOp::IncludeCarryZ, RegisterTarget::A)),
            0x18 => Some(Instruction::JumpRn(Conditional::Unconditional)),
            0x19 => Some(Instruction::ADD16(DoubleRegisterTarget::DE)),
            0x1A => Some(
                Instruction::LoadRMem(RegisterTarget::A, DoubleRegisterTarget::DE, PostOp::Nop),
            ),
            0x1B => Some(Instruction::DEC16(DoubleRegisterTarget::DE)),
            0x1C => Some(Instruction::INC(RegisterTarget::E)),
            0x1D => Some(Instruction::DEC(RegisterTarget::E)),
            0x1E => Some(Instruction::LoadRN(RegisterTarget::E)),
            0x1F => Some(Instruction::RightShift(ShiftOp::IncludeCarryZ, RegisterTarget::A)),
            0x20 => Some(Instruction::JumpRn(Conditional::NotZeroFlag)),
            0x21 => Some(Instruction::LoadRRNN(DoubleRegisterTarget::HL)),
            0x22 => Some(
                Instruction::LoadMemR(DoubleRegisterTarget::HL, RegisterTarget::A, PostOp::Increment),
            ),
            0x23 => Some(Instruction::INC16(DoubleRegisterTarget::HL)),
            0x24 => Some(Instruction::INC(RegisterTarget::H)),
            0x25 => Some(Instruction::DEC(RegisterTarget::H)),
            0x26 => Some(Instruction::LoadRN(RegisterTarget::H)),
            0x27 => Some(Instruction::DAA()),
            0x28 => Some(Instruction::JumpRn(Conditional::ZeroFlag)),
            0x29 => Some(Instruction::ADD16(DoubleRegisterTarget::HL)),
            0x2A => Some(
                Instruction::LoadRMem(RegisterTarget::A, DoubleRegisterTarget::HL, PostOp::Increment),
            ),
            0x2B => Some(Instruction::DEC16(DoubleRegisterTarget::HL)),
            0x2C => Some(Instruction::INC(RegisterTarget::L)),
            0x2D => Some(Instruction::DEC(RegisterTarget::L)),
            0x2E => Some(Instruction::LoadRN(RegisterTarget::L)),
            0x2F => Some(Instruction::CPL()),
            0x30 => Some(Instruction::JumpRn(Conditional::NotCarryFlag)),
            0x31 => Some(Instruction::LoadSPNN()),
            0x32 => Some(
                Instruction::LoadMemR(DoubleRegisterTarget::HL, RegisterTarget::A, PostOp::Decrement),
            ),
            0x33 => Some(Instruction::INCSP()),
            0x34 => Some(Instruction::INCmem(DoubleRegisterTarget::HL)),
            0x35 => Some(Instruction::DECmem(DoubleRegisterTarget::HL)),
            0x36 => Some(Instruction::LoadMemN(DoubleRegisterTarget::HL)),
            0x37 => Some(Instruction::SCF()),
            0x38 => Some(Instruction::JumpRn(Conditional::CarryFlag)),
            0x39 => Some(Instruction::ADD16SP()),
            0x3A => Some(
                Instruction::LoadRMem(RegisterTarget::A, DoubleRegisterTarget::HL, PostOp::Decrement),
            ),
            0x3B => Some(Instruction::DECSP()),
            0x3C => Some(Instruction::INC(RegisterTarget::A)),
            0x3D => Some(Instruction::DEC(RegisterTarget::A)),
            0x3E => Some(Instruction::LoadRN(RegisterTarget::A)),
            0x3F => Some(Instruction::CCF()),
            0x40 => Some(Instruction::LoadRR(RegisterTarget::B, RegisterTarget::B)),
            0x41 => Some(Instruction::LoadRR(RegisterTarget::B, RegisterTarget::C)),
            0x42 => Some(Instruction::LoadRR(RegisterTarget::B, RegisterTarget::D)),
            0x43 => Some(Instruction::LoadRR(RegisterTarget::B, RegisterTarget::E)),
            0x44 => Some(Instruction::LoadRR(RegisterTarget::B, RegisterTarget::H)),
            0x45 => Some(Instruction::LoadRR(RegisterTarget::B, RegisterTarget::L)),
            0x46 => Some(
                Instruction::LoadRMem(RegisterTarget::B, DoubleRegisterTarget::HL, PostOp::Nop),
            ),
            0x47 => Some(Instruction::LoadRR(RegisterTarget::B, RegisterTarget::A)),
            0x48 => Some(Instruction::LoadRR(RegisterTarget::C, RegisterTarget::B)),
            0x49 => Some(Instruction::LoadRR(RegisterTarget::C, RegisterTarget::C)),
            0x4A => Some(Instruction::LoadRR(RegisterTarget::C, RegisterTarget::D)),
            0x4B => Some(Instruction::LoadRR(RegisterTarget::C, RegisterTarget::E)),
            0x4C => Some(Instruction::LoadRR(RegisterTarget::C, RegisterTarget::H)),
            0x4D => Some(Instruction::LoadRR(RegisterTarget::C, RegisterTarget::L)),
            0x4E => Some(
                Instruction::LoadRMem(RegisterTarget::C, DoubleRegisterTarget::HL, PostOp::Nop),
            ),
            0x4F => Some(Instruction::LoadRR(RegisterTarget::C, RegisterTarget::A)),
            0x50 => Some(Instruction::LoadRR(RegisterTarget::D, RegisterTarget::B)),
            0x51 => Some(Instruction::LoadRR(RegisterTarget::D, RegisterTarget::C)),
            0x52 => Some(Instruction::LoadRR(RegisterTarget::D, RegisterTarget::D)),
            0x53 => Some(Instruction::LoadRR(RegisterTarget::D, RegisterTarget::E)),
            0x54 => Some(Instruction::LoadRR(RegisterTarget::D, RegisterTarget::H)),
            0x55 => Some(Instruction::LoadRR(RegisterTarget::D, RegisterTarget::L)),
            0x56 => Some(
                Instruction::LoadRMem(RegisterTarget::D, DoubleRegisterTarget::HL, PostOp::Nop),
            ),
            0x57 => Some(Instruction::LoadRR(RegisterTarget::D, RegisterTarget::A)),
            0x58 => Some(Instruction::LoadRR(RegisterTarget::E, RegisterTarget::B)),
            0x59 => Some(Instruction::LoadRR(RegisterTarget::E, RegisterTarget::C)),
            0x5A => Some(Instruction::LoadRR(RegisterTarget::E, RegisterTarget::D)),
            0x5B => Some(Instruction::LoadRR(RegisterTarget::E, RegisterTarget::E)),
            0x5C => Some(Instruction::LoadRR(RegisterTarget::E, RegisterTarget::H)),
            0x5D => Some(Instruction::LoadRR(RegisterTarget::E, RegisterTarget::L)),
            0x5E => Some(
                Instruction::LoadRMem(RegisterTarget::E, DoubleRegisterTarget::HL, PostOp::Nop),
            ),
            0x5F => Some(Instruction::LoadRR(RegisterTarget::E, RegisterTarget::A)),
            0x60 => Some(Instruction::LoadRR(RegisterTarget::H, RegisterTarget::B)),
            0x61 => Some(Instruction::LoadRR(RegisterTarget::H, RegisterTarget::C)),
            0x62 => Some(Instruction::LoadRR(RegisterTarget::H, RegisterTarget::D)),
            0x63 => Some(Instruction::LoadRR(RegisterTarget::H, RegisterTarget::E)),
            0x64 => Some(Instruction::LoadRR(RegisterTarget::H, RegisterTarget::H)),
            0x65 => Some(Instruction::LoadRR(RegisterTarget::H, RegisterTarget::L)),
            0x66 => Some(
                Instruction::LoadRMem(RegisterTarget::H, DoubleRegisterTarget::HL, PostOp::Nop),
            ),
            0x67 => Some(Instruction::LoadRR(RegisterTarget::H, RegisterTarget::A)),
            0x68 => Some(Instruction::LoadRR(RegisterTarget::L, RegisterTarget::B)),
            0x69 => Some(Instruction::LoadRR(RegisterTarget::L, RegisterTarget::C)),
            0x6A => Some(Instruction::LoadRR(RegisterTarget::L, RegisterTarget::D)),
            0x6B => Some(Instruction::LoadRR(RegisterTarget::L, RegisterTarget::E)),
            0x6C => Some(Instruction::LoadRR(RegisterTarget::L, RegisterTarget::H)),
            0x6D => Some(Instruction::LoadRR(RegisterTarget::L, RegisterTarget::L)),
            0x6E => Some(
                Instruction::LoadRMem(RegisterTarget::L, DoubleRegisterTarget::HL, PostOp::Nop),
            ),
            0x6F => Some(Instruction::LoadRR(RegisterTarget::L, RegisterTarget::A)),
            0x70 => Some(
                Instruction::LoadMemR(DoubleRegisterTarget::HL, RegisterTarget::B, PostOp::Nop),
            ),
            0x71 => Some(
                Instruction::LoadMemR(DoubleRegisterTarget::HL, RegisterTarget::C, PostOp::Nop),
            ),
            0x72 => Some(
                Instruction::LoadMemR(DoubleRegisterTarget::HL, RegisterTarget::D, PostOp::Nop),
            ),
            0x73 => Some(
                Instruction::LoadMemR(DoubleRegisterTarget::HL, RegisterTarget::E, PostOp::Nop),
            ),
            0x74 => Some(
                Instruction::LoadMemR(DoubleRegisterTarget::HL, RegisterTarget::H, PostOp::Nop),
            ),
            0x75 => Some(
                Instruction::LoadMemR(DoubleRegisterTarget::HL, RegisterTarget::L, PostOp::Nop),
            ),
            0x76 => None,
            0x77 => Some(
                Instruction::LoadMemR(DoubleRegisterTarget::HL, RegisterTarget::A, PostOp::Nop),
            ),
            0x78 => Some(Instruction::LoadRR(RegisterTarget::A, RegisterTarget::B)),
            0x79 => Some(Instruction::LoadRR(RegisterTarget::A, RegisterTarget::C)),
            0x7A => Some(Instruction::LoadRR(RegisterTarget::A, RegisterTarget::D)),
            0x7B => Some(Instruction::LoadRR(RegisterTarget::A, RegisterTarget::E)),
            0x7C => Some(Instruction::LoadRR(RegisterTarget::A, RegisterTarget::H)),
            0x7D => Some(Instruction::LoadRR(RegisterTarget::A, RegisterTarget::L)),
            0x7E => Some(
                Instruction::LoadRMem(RegisterTarget::A, DoubleRegisterTarget::HL, PostOp::Nop),
            ),
            0x7F => Some(Instruction::LoadRR(RegisterTarget::A, RegisterTarget::A)),
            0x80 => Some(Instruction::ADD(RegisterTarget::B, false)),
            0x81 => Some(Instruction::ADD(RegisterTarget::C, false)),
            0x82 => Some(Instruction::ADD(RegisterTarget::D, false)),
            0x83 => Some(Instruction::ADD(RegisterTarget::E, false)),
            0x84 => Some(Instruction::ADD(RegisterTarget::H, false)),
            0x85 => Some(Instruction::ADD(RegisterTarget::L, false)),
            0x86 => Some(Instruction::ADDmem(DoubleRegisterTarget::HL, false)),
            0x87 => Some(Instruction::ADD(RegisterTarget::A, false)),
            0x88 => Some(Instruction::ADD(RegisterTarget::B, true)),
            0x89 => Some(Instruction::ADD(RegisterTarget::C, true)),
            0x8A => Some(Instruction::ADD(RegisterTarget::D, true)),
            0x8B => Some(Instruction::ADD(RegisterTarget::E, true)),
            0x8C => Some(Instruction::ADD(RegisterTarget::H, true)),
            0x8D => Some(Instruction::ADD(RegisterTarget::L, true)),
            0x8E => Some(Instruction::ADDmem(DoubleRegisterTarget::HL, true)),
            0x8F => Some(Instruction::ADD(RegisterTarget::A, true)),
            0x90 => Some(Instruction::SUB(RegisterTarget::B, false)),
            0x91 => Some(Instruction::SUB(RegisterTarget::C, false)),
            0x92 => Some(Instruction::SUB(RegisterTarget::D, false)),
            0x93 => Some(Instruction::SUB(RegisterTarget::E, false)),
            0x94 => Some(Instruction::SUB(RegisterTarget::H, false)),
            0x95 => Some(Instruction::SUB(RegisterTarget::L, false)),
            0x96 => Some(Instruction::SUBmem(DoubleRegisterTarget::HL, false)),
            0x97 => Some(Instruction::SUB(RegisterTarget::A, false)),
            0x98 => Some(Instruction::SUB(RegisterTarget::B, true)),
            0x99 => Some(Instruction::SUB(RegisterTarget::C, true)),
            0x9A => Some(Instruction::SUB(RegisterTarget::D, true)),
            0x9B => Some(Instruction::SUB(RegisterTarget::E, true)),
            0x9C => Some(Instruction::SUB(RegisterTarget::H, true)),
            0x9D => Some(Instruction::SUB(RegisterTarget::L, true)),
            0x9E => Some(Instruction::SUBmem(DoubleRegisterTarget::HL, true)),
            0x9F => Some(Instruction::SUB(RegisterTarget::A, true)),
            0xA0 => Some(Instruction::AND(RegisterTarget::B)),
            0xA1 => Some(Instruction::AND(RegisterTarget::C)),
            0xA2 => Some(Instruction::AND(RegisterTarget::D)),
            0xA3 => Some(Instruction::AND(RegisterTarget::E)),
            0xA4 => Some(Instruction::AND(RegisterTarget::H)),
            0xA5 => Some(Instruction::AND(RegisterTarget::L)),
            0xA6 => Some(Instruction::ANDmem(DoubleRegisterTarget::HL)),
            0xA7 => Some(Instruction::AND(RegisterTarget::A)),
            0xA8 => Some(Instruction::XOR(RegisterTarget::B)),
            0xA9 => Some(Instruction::XOR(RegisterTarget::C)),
            0xAA => Some(Instruction::XOR(RegisterTarget::D)),
            0xAB => Some(Instruction::XOR(RegisterTarget::E)),
            0xAC => Some(Instruction::XOR(RegisterTarget::H)),
            0xAD => Some(Instruction::XOR(RegisterTarget::L)),
            0xAE => Some(Instruction::XORmem(DoubleRegisterTarget::HL)),
            0xAF => Some(Instruction::XOR(RegisterTarget::A)),
            0xB0 => Some(Instruction::OR(RegisterTarget::B)),
            0xB1 => Some(Instruction::OR(RegisterTarget::C)),
            0xB2 => Some(Instruction::OR(RegisterTarget::D)),
            0xB3 => Some(Instruction::OR(RegisterTarget::E)),
            0xB4 => Some(Instruction::OR(RegisterTarget::H)),
            0xB5 => Some(Instruction::OR(RegisterTarget::L)),
            0xB6 => Some(Instruction::ORmem(DoubleRegisterTarget::HL)),
            0xB7 => Some(Instruction::OR(RegisterTarget::A)),
            0xB8 => Some(Instruction::CP(RegisterTarget::B)),
            0xB9 => Some(Instruction::CP(RegisterTarget::C)),
            0xBA => Some(Instruction::CP(RegisterTarget::D)),
            0xBB => Some(Instruction::CP(RegisterTarget::E)),
            0xBC => Some(Instruction::CP(RegisterTarget::H)),
            0xBD => Some(Instruction::CP(RegisterTarget::L)),
            0xBE => Some(Instruction::CPmem(DoubleRegisterTarget::HL)),
            0xBF => Some(Instruction::CP(RegisterTarget::A)),
            0xC0 => Some(Instruction::Return(Conditional::NotZeroFlag)),
            0xC1 => Some(Instruction::PopRR(DoubleRegisterTarget::BC)),
            0xC2 => Some(Instruction::JumpNN(Conditional::NotZeroFlag)),
            0xC3 => Some(Instruction::JumpNN(Conditional::Unconditional)),
            0xC4 => Some(Instruction::CallNN(Conditional::NotZeroFlag)),
            0xC5 => Some(Instruction::PushRR(DoubleRegisterTarget::BC)),
            0xC6 => Some(Instruction::ADDn(false)),
            0xC7 => Some(Instruction::CallI(InvariantFunction::F00)),
            0xC8 => Some(Instruction::Return(Conditional::ZeroFlag)),
            0xC9 => Some(Instruction::Return(Conditional::Unconditional)),
            0xCA => Some(Instruction::JumpNN(Conditional::ZeroFlag)),
            0xCC => Some(Instruction::CallNN(Conditional::ZeroFlag)),
            0xCD => Some(Instruction::CallNN(Conditional::Unconditional)),
            0xCE => Some(Instruction::ADDn(true)),
            0xCF => Some(Instruction::CallI(InvariantFunction::F08)),
            0xD0 => Some(Instruction::Return(Conditional::NotCarryFlag)),
            0xD1 => Some(Instruction::PopRR(DoubleRegisterTarget::DE)),
            0xD2 => Some(Instruction::JumpNN(Conditional::NotCarryFlag)),
            0xD4 => Some(Instruction::CallNN(Conditional::NotCarryFlag)),
            0xD5 => Some(Instruction::PushRR(DoubleRegisterTarget::DE)),
            0xD6 => Some(Instruction::SUBn(false)),
            0xD7 => Some(Instruction::CallI(InvariantFunction::F10)),
            0xD8 => Some(Instruction::Return(Conditional::CarryFlag)),
            0xD9 => Some(Instruction::Return(Conditional::Unconditional)),
            0xDA => Some(Instruction::JumpNN(Conditional::CarryFlag)),
            0xDC => Some(Instruction::CallNN(Conditional::CarryFlag)),
            0xDE => Some(Instruction::SUBn(true)),
            0xDF => Some(Instruction::CallI(InvariantFunction::F18)),
            0xE0 => Some(Instruction::LoadHighNR(RegisterTarget::A)),
            0xE1 => Some(Instruction::PopRR(DoubleRegisterTarget::HL)),
            0xE2 => Some(Instruction::LoadHighRR(RegisterTarget::C, RegisterTarget::A)),
            0xE5 => Some(Instruction::PushRR(DoubleRegisterTarget::HL)),
            0xE6 => Some(Instruction::ANDn()),
            0xE7 => Some(Instruction::CallI(InvariantFunction::F20)),
            0xE8 => Some(Instruction::ADDSPn()),
            0xE9 => Some(Instruction::JumpHL()),
            0xEA => Some(Instruction::LoadNNR(RegisterTarget::A)),
            0xEE => Some(Instruction::XORn()),
            0xEF => Some(Instruction::CallI(InvariantFunction::F28)),
            0xF0 => Some(Instruction::LoadRHighN(RegisterTarget::A)),
            0xF1 => Some(Instruction::PopRR(DoubleRegisterTarget::AF)),
            0xF2 => Some(Instruction::LoadRHighR(RegisterTarget::A, RegisterTarget::C)),
            0xF3 => Some(Instruction::DI()),
            0xF5 => Some(Instruction::PushRR(DoubleRegisterTarget::AF)),
            0xF6 => Some(Instruction::ORn()),
            0xF7 => Some(Instruction::CallI(InvariantFunction::F30)),
            0xF8 => Some(Instruction::LoadRRSPn(DoubleRegisterTarget::HL)),
            0xF9 => Some(Instruction::LoadSPRR(DoubleRegisterTarget::HL)),
            0xFA => Some(Instruction::LoadRNN(RegisterTarget::A)),
            0xFB => Some(Instruction::EI()),
            0xFE => Some(Instruction::CPn()),
            0xFF => Some(Instruction::CallI(InvariantFunction::F38)),
            _ => None,
        }
    }

    /// The table of opcodes that follow the prefix.
    pub fn from_byte_prefixed(byte: u8) -> (instruction: Option<Instruction>)
        ensures
            instruction == Some(decode_prefixed(byte)),
            instruction matches Some(i) && i.well_formed(),
    {
        match byte {
            0x00 => Some(Instruction::LeftShift(ShiftOp::Rotate, RegisterTarget::B)),
            0x01 => Some(Instruction::LeftShift(ShiftOp::Rotate, RegisterTarget::C)),
            0x02 => Some(Instruction::LeftShift(ShiftOp::Rotate, RegisterTarget::D)),
            0x03 => Some(Instruction::LeftShift(ShiftOp::Rotate, RegisterTarget::E)),
            0x04 => Some(Instruction::LeftShift(ShiftOp::Rotate, RegisterTarget::H)),
            0x05 => Some(Instruction::LeftShift(ShiftOp::Rotate, RegisterTarget::L)),
            0x06 => Some(Instruction::LeftShiftMem(ShiftOp::Rotate, DoubleRegisterTarget::HL)),
            0x07 => Some(Instruction::LeftShift(ShiftOp::Rotate, RegisterTarget::A)),
            0x08 => Some(Instruction::RightShift(ShiftOp::Rotate, RegisterTarget::B)),
            0x09 => Some(Instruction::RightShift(ShiftOp::Rotate, RegisterTarget::C)),
            0x0A => Some(Instruction::RightShift(ShiftOp::Rotate, RegisterTarget::D)),
            0x0B => Some(Instruction::RightShift(ShiftOp::Rotate, RegisterTarget::E)),
            0x0C => Some(Instruction::RightShift(ShiftOp::Rotate, RegisterTarget::H)),
            0x0D => Some(Instruction::RightShift(ShiftOp::Rotate, RegisterTarget::L)),
            0x0E => Some(Instruction::RightShiftMem(ShiftOp::Rotate, DoubleRegisterTarget::HL)),
            0x0F => Some(Instruction::RightShift(ShiftOp::Rotate, RegisterTarget::A)),
            0x10 => Some(Instruction::LeftShift(ShiftOp::IncludeCarry, RegisterTarget::B)),
            0x11 => Some(Instruction::LeftShift(ShiftOp::IncludeCarry, RegisterTarget::C)),
            0x12 => Some(Instruction::LeftShift(ShiftOp::IncludeCarry, RegisterTarget::D)),
            0x13 => Some(Instruction::LeftShift(ShiftOp::IncludeCarry, RegisterTarget::E)),
            0x14 => Some(Instruction::LeftShift(ShiftOp::IncludeCarry, RegisterTarget::H)),
            0x15 => Some(Instruction::LeftShift(ShiftOp::IncludeCarry, RegisterTarget::L)),
            0x16 => Some(
                Instruction::LeftShiftMem(ShiftOp::IncludeCarry, DoubleRegisterTarget::HL),
            ),
            0x17 => Some(Instruction::LeftShift(ShiftOp::IncludeCarry, RegisterTarget::A)),
            0x18 => Some(Instruction::RightShift(ShiftOp::IncludeCarry, RegisterTarget::B)),
            0x19 => Some(Instruction::RightShift(ShiftOp::IncludeCarry, RegisterTarget::C)),
            0x1A => Some(Instruction::RightShift(ShiftOp::IncludeCarry, RegisterTarget::D)),
            0x1B => Some(Instruction::RightShift(ShiftOp::IncludeCarry, RegisterTarget::E)),
            0x1C => Some(Instruction::RightShift(ShiftOp::IncludeCarry, RegisterTarget::H)),
            0x1D => Some(Instruction::RightShift(ShiftOp::IncludeCarry, RegisterTarget::L)),
            0x1E => Some(
                Instruction::RightShiftMem(ShiftOp::IncludeCarry, DoubleRegisterTarget::HL),
            ),
            0x1F => Some(Instruction::RightShift(ShiftOp::IncludeCarry, RegisterTarget::A)),
            0x20 => Some(Instruction::LeftShift(ShiftOp::Arithmetic, RegisterTarget::B)),
            0x21 => Some(Instruction::LeftShift(ShiftOp::Arithmetic, RegisterTarget::C)),
            0x22 => Some(Instruction::LeftShift(ShiftOp::Arithmetic, RegisterTarget::D)),
            0x23 => Some(Instruction::LeftShift(ShiftOp::Arithmetic, RegisterTarget::E)),
            0x24 => Some(Instruction::LeftShift(ShiftOp::Arithmetic, RegisterTarget::H)),
            0x25 => Some(Instruction::LeftShift(ShiftOp::Arithmetic, RegisterTarget::L)),
            0x26 => Some(Instruction::LeftShiftMem(ShiftOp::Arithmetic, DoubleRegisterTarget::HL)),
            0x27 => Some(Instruction::LeftShift(ShiftOp::Arithmetic, RegisterTarget::A)),
            0x28 => Some(Instruction::RightShift(ShiftOp::Arithmetic, RegisterTarget::B)),
            0x29 => Some(Instruction::RightShift(ShiftOp::Arithmetic, RegisterTarget::C)),
            0x2A => Some(Instruction::RightShift(ShiftOp::Arithmetic, RegisterTarget::D)),
            0x2B => Some(Instruction::RightShift(ShiftOp::Arithmetic, RegisterTarget::E)),
            0x2C => Some(Instruction::RightShift(ShiftOp::Arithmetic, RegisterTarget::H)),
            0x2D => Some(Instruction::RightShift(ShiftOp::Arithmetic, RegisterTarget::L)),
            0x2E => Some(Instruction::RightShiftMem(ShiftOp::Arithmetic, DoubleRegisterTarget::HL)),
            0x2F => Some(Instruction::RightShift(ShiftOp::Arithmetic, RegisterTarget::A)),
            0x30 => Some(Instruction::Swap(RegisterTarget::B)),
            0x31 => Some(Instruction::Swap(RegisterTarget::C)),
            0x32 => Some(Instruction::Swap(RegisterTarget::D)),
            0x33 => Some(Instruction::Swap(RegisterTarget::E)),
            0x34 => Some(Instruction::Swap(RegisterTarget::H)),
            0x35 => Some(Instruction::Swap(RegisterTarget::L)),
            0x36 => Some(Instruction::SwapMem(DoubleRegisterTarget::HL)),
            0x37 => Some(Instruction::Swap(RegisterTarget::A)),
            0x38 => Some(Instruction::RightShift(ShiftOp::Logical, RegisterTarget::B)),
            0x39 => Some(Instruction::RightShift(ShiftOp::Logical, RegisterTarget::C)),
            0x3A => Some(Instruction::RightShift(ShiftOp::Logical, RegisterTarget::D)),
            0x3B => Some(Instruction::RightShift(ShiftOp::Logical, RegisterTarget::E)),
            0x3C => Some(Instruction::RightShift(ShiftOp::Logical, RegisterTarget::H)),
            0x3D => Some(Instruction::RightShift(ShiftOp::Logical, RegisterTarget::L)),
            0x3E => Some(Instruction::RightShiftMem(ShiftOp::Logical, DoubleRegisterTarget::HL)),
            0x3F => Some(Instruction::RightShift(ShiftOp::Logical, RegisterTarget::A)),
            0x40 => Some(Instruction::BitCopy(0, RegisterTarget::B)),
            0x41 => Some(Instruction::BitCopy(0, RegisterTarget::C)),
            0x42 => Some(Instruction::BitCopy(0, RegisterTarget::D)),
            0x43 => Some(Instruction::BitCopy(0, RegisterTarget::E)),
            0x44 => Some(Instruction::BitCopy(0, RegisterTarget::H)),
            0x45 => Some(Instruction::BitCopy(0, RegisterTarget::L)),
            0x46 => Some(Instruction::BitCopyMem(0, DoubleRegisterTarget::HL)),
            0x47 => Some(Instruction::BitCopy(0, RegisterTarget::A)),
            0x48 => Some(Instruction::BitCopy(1, RegisterTarget::B)),
            0x49 => Some(Instruction::BitCopy(1, RegisterTarget::C)),
            0x4A => Some(Instruction::BitCopy(1, RegisterTarget::D)),
            0x4B => Some(Instruction::BitCopy(1, RegisterTarget::E)),
            0x4C => Some(Instruction::BitCopy(1, RegisterTarget::H)),
            0x4D => Some(Instruction::BitCopy(1, RegisterTarget::L)),
            0x4E => Some(Instruction::BitCopyMem(1, DoubleRegisterTarget::HL)),
            0x4F => Some(Instruction::BitCopy(1, RegisterTarget::A)),
            0x50 => Some(Instruction::BitCopy(2, RegisterTarget::B)),
            0x51 => Some(Instruction::BitCopy(2, RegisterTarget::C)),
            0x52 => Some(Instruction::BitCopy(2, RegisterTarget::D)),
            0x53 => Some(Instruction::BitCopy(2, RegisterTarget::E)),
            0x54 => Some(Instruction::BitCopy(2, RegisterTarget::H)),
            0x55 => Some(Instruction::BitCopy(2, RegisterTarget::L)),
            0x56 => Some(Instruction::BitCopyMem(2, DoubleRegisterTarget::HL)),
            0x57 => Some(Instruction::BitCopy(2, RegisterTarget::A)),
            0x58 => Some(Instruction::BitCopy(3, RegisterTarget::B)),
            0x59 => Some(Instruction::BitCopy(3, RegisterTarget::C)),
            0x5A => Some(Instruction::BitCopy(3, RegisterTarget::D)),
            0x5B => Some(Instruction::BitCopy(3, RegisterTarget::E)),
            0x5C => Some(Instruction::BitCopy(3, RegisterTarget::H)),
            0x5D => Some(Instruction::BitCopy(3, RegisterTarget::L)),
            0x5E => Some(Instruction::BitCopyMem(3, DoubleRegisterTarget::HL)),
            0x5F => Some(Instruction::BitCopy(3, RegisterTarget::A)),
            0x60 => Some(Instruction::BitCopy(4, RegisterTarget::B)),
            0x61 => Some(Instruction::BitCopy(4, RegisterTarget::C)),
            0x62 => Some(Instruction::BitCopy(4, RegisterTarget::D)),
            0x63 => Some(Instruction::BitCopy(4, RegisterTarget::E)),
            0x64 => Some(Instruction::BitCopy(4, RegisterTarget::H)),
            0x65 => Some(Instruction::BitCopy(4, RegisterTarget::L)),
            0x66 => Some(Instruction::BitCopyMem(4, DoubleRegisterTarget::HL)),
            0x67 => Some(Instruction::BitCopy(4, RegisterTarget::A)),
            0x68 => Some(Instruction::BitCopy(5, RegisterTarget::B)),
            0x69 => Some(Instruction::BitCopy(5, RegisterTarget::C)),
            0x6A => Some(Instruction::BitCopy(5, RegisterTarget::D)),
            0x6B => Some(Instruction::BitCopy(5, RegisterTarget::E)),
            0x6C => Some(Instruction::BitCopy(5, RegisterTarget::H)),
            0x6D => Some(Instruction::BitCopy(5, RegisterTarget::L)),
            0x6E => Some(Instruction::BitCopyMem(5, DoubleRegisterTarget::HL)),
            0x6F => Some(Instruction::BitCopy(5, RegisterTarget::A)),
            0x70 => Some(Instruction::BitCopy(6, RegisterTarget::B)),
            0x71 => Some(Instruction::BitCopy(6, RegisterTarget::C)),
            0x72 => Some(Instruction::BitCopy(6, RegisterTarget::D)),
            0x73 => Some(Instruction::BitCopy(6, RegisterTarget::E)),
            0x74 => Some(Instruction::BitCopy(6, RegisterTarget::H)),
            0x75 => Some(Instruction::BitCopy(6, RegisterTarget::L)),
            0x76 => Some(Instruction::BitCopyMem(6, DoubleRegisterTarget::HL)),
            0x77 => Some(Instruction::BitCopy(6, RegisterTarget::A)),
            0x78 => Some(Instruction::BitCopy(7, RegisterTarget::B)),
            0x79 => Some(Instruction::BitCopy(7, RegisterTarget::C)),
            0x7A => Some(Instruction::BitCopy(7, RegisterTarget::D)),
            0x7B => Some(Instruction::BitCopy(7, RegisterTarget::E)),
            0x7C => Some(Instruction::BitCopy(7, RegisterTarget::H)),
            0x7D => Some(Instruction::BitCopy(7, RegisterTarget::L)),
            0x7E => Some(Instruction::BitCopyMem(7, DoubleRegisterTarget::HL)),
            0x7F => Some(Instruction::BitCopy(7, RegisterTarget::A)),
            0x80 => Some(Instruction::Reset(0, RegisterTarget::B)),
            0x81 => Some(Instruction::Reset(0, RegisterTarget::C)),
            0x82 => Some(Instruction::Reset(0, RegisterTarget::D)),
            0x83 => Some(Instruction::Reset(0, RegisterTarget::E)),
            0x84 => Some(Instruction::Reset(0, RegisterTarget::H)),
            0x85 => Some(Instruction::Reset(0, RegisterTarget::L)),
            0x86 => Some(Instruction::ResetMem(0, DoubleRegisterTarget::HL)),
            0x87 => Some(Instruction::Reset(0, RegisterTarget::A)),
            0x88 => Some(Instruction::Reset(1, RegisterTarget::B)),
            0x89 => Some(Instruction::Reset(1, RegisterTarget::C)),
            0x8A => Some(Instruction::Reset(1, RegisterTarget::D)),
            0x8B => Some(Instruction::Reset(1, RegisterTarget::E)),
            0x8C => Some(Instruction::Reset(1, RegisterTarget::H)),
            0x8D => Some(Instruction::Reset(1, RegisterTarget::L)),
            0x8E => Some(Instruction::ResetMem(1, DoubleRegisterTarget::HL)),
            0x8F => Some(Instruction::Reset(1, RegisterTarget::A)),
            0x90 => Some(Instruction::Reset(2, RegisterTarget::B)),
            0x91 => Some(Instruction::Reset(2, RegisterTarget::C)),
            0x92 => Some(Instruction::Reset(2, RegisterTarget::D)),
            0x93 => Some(Instruction::Reset(2, RegisterTarget::E)),
            0x94 => Some(Instruction::Reset(2, RegisterTarget::H)),
            0x95 => Some(Instruction::Reset(2, RegisterTarget::L)),
            0x96 => Some(Instruction::ResetMem(2, DoubleRegisterTarget::HL)),
            0x97 => Some(Instruction::Reset(2, RegisterTarget::A)),
            0x98 => Some(Instruction::Reset(3, RegisterTarget::B)),
            0x99 => Some(Instruction::Reset(3, RegisterTarget::C)),
            0x9A => Some(Instruction::Reset(3, RegisterTarget::D)),
            0x9B => Some(Instruction::Reset(3, RegisterTarget::E)),
            0x9C => Some(Instruction::Reset(3, RegisterTarget::H)),
            0x9D => Some(Instruction::Reset(3, RegisterTarget::L)),
            0x9E => Some(Instruction::ResetMem(3, DoubleRegisterTarget::HL)),
            0x9F => Some(Instruction::Reset(3, RegisterTarget::A)),
            0xA0 => Some(Instruction::Reset(4, RegisterTarget::B)),
            0xA1 => Some(Instruction::Reset(4, RegisterTarget::C)),
            0xA2 => Some(Instruction::Reset(4, RegisterTarget::D)),
            0xA3 => Some(Instruction::Reset(4, RegisterTarget::E)),
            0xA4 => Some(Instruction::Reset(4, RegisterTarget::H)),
            0xA5 => Some(Instruction::Reset(4, RegisterTarget::L)),
            0xA6 => Some(Instruction::ResetMem(4, DoubleRegisterTarget::HL)),
            0xA7 => Some(Instruction::Reset(4, RegisterTarget::A)),
            0xA8 => Some(Instruction::Reset(5, RegisterTarget::B)),
            0xA9 => Some(Instruction::Reset(5, RegisterTarget::C)),
            0xAA => Some(Instruction::Reset(5, RegisterTarget::D)),
            0xAB => Some(Instruction::Reset(5, RegisterTarget::E)),
            0xAC => Some(Instruction::Reset(5, RegisterTarget::H)),
            0xAD => Some(Instruction::Reset(5, RegisterTarget::L)),
            0xAE => Some(Instruction::ResetMem(5, DoubleRegisterTarget::HL)),
            0xAF => Some(Instruction::Reset(5, RegisterTarget::A)),
            0xB0 => Some(Instruction::Reset(6, RegisterTarget::B)),
            0xB1 => Some(Instruction::Reset(6, RegisterTarget::C)),
            0xB2 => Some(Instruction::Reset(6, RegisterTarget::D)),
            0xB3 => Some(Instruction::Reset(6, RegisterTarget::E)),
            0xB4 => Some(Instruction::Reset(6, RegisterTarget::H)),
            0xB5 => Some(Instruction::Reset(6, RegisterTarget::L)),
            0xB6 => Some(Instruction::ResetMem(6, DoubleRegisterTarget::HL)),
            0xB7 => Some(Instruction::Reset(6, RegisterTarget::A)),
            0xB8 => Some(Instruction::Reset(7, RegisterTarget::B)),
            0xB9 => Some(Instruction::Reset(7, RegisterTarget::C)),
            0xBA => Some(Instruction::Reset(7, RegisterTarget::D)),
            0xBB => Some(Instruction::Reset(7, RegisterTarget::E)),
            0xBC => Some(Instruction::Reset(7, RegisterTarget::H)),
            0xBD => Some(Instruction::Reset(7, RegisterTarget::L)),
            0xBE => Some(Instruction::ResetMem(7, DoubleRegisterTarget::HL)),
            0xBF => Some(Instruction::Reset(7, RegisterTarget::A)),
            0xC0 => Some(Instruction::SetBit(0, RegisterTarget::B)),
            0xC1 => Some(Instruction::SetBit(0, RegisterTarget::C)),
            0xC2 => Some(Instruction::SetBit(0, RegisterTarget::D)),
            0xC3 => Some(Instruction::SetBit(0, RegisterTarget::E)),
            0xC4 => Some(Instruction::SetBit(0, RegisterTarget::H)),
            0xC5 => Some(Instruction::SetBit(0, RegisterTarget::L)),
            0xC6 => Some(Instruction::SetMem(0, DoubleRegisterTarget::HL)),
            0xC7 => Some(Instruction::SetBit(0, RegisterTarget::A)),
            0xC8 => Some(Instruction::SetBit(1, RegisterTarget::B)),
            0xC9 => Some(Instruction::SetBit(1, RegisterTarget::C)),
            0xCA => Some(Instruction::SetBit(1, RegisterTarget::D)),
            0xCB => Some(Instruction::SetBit(1, RegisterTarget::E)),
            0xCC => Some(Instruction::SetBit(1, RegisterTarget::H)),
            0xCD => Some(Instruction::SetBit(1, RegisterTarget::L)),
            0xCE => Some(Instruction::SetMem(1, DoubleRegisterTarget::HL)),
            0xCF => Some(Instruction::SetBit(1, RegisterTarget::A)),
            0xD0 => Some(Instruction::SetBit(2, RegisterTarget::B)),
            0xD1 => Some(Instruction::SetBit(2, RegisterTarget::C)),
            0xD2 => Some(Instruction::SetBit(2, RegisterTarget::D)),
            0xD3 => Some(Instruction::SetBit(2, RegisterTarget::E)),
            0xD4 => Some(Instruction::SetBit(2, RegisterTarget::H)),
            0xD5 => Some(Instruction::SetBit(2, RegisterTarget::L)),
            0xD6 => Some(Instruction::SetMem(2, DoubleRegisterTarget::HL)),
            0xD7 => Some(Instruction::SetBit(2, RegisterTarget::A)),
            0xD8 => Some(Instruction::SetBit(3, RegisterTarget::B)),
            0xD9 => Some(Instruction::SetBit(3, RegisterTarget::C)),
            0xDA => Some(Instruction::SetBit(3, RegisterTarget::D)),
            0xDB => Some(Instruction::SetBit(3, RegisterTarget::E)),
            0xDC => Some(Instruction::SetBit(3, RegisterTarget::H)),
            0xDD => Some(Instruction::SetBit(3, RegisterTarget::L)),
            0xDE => Some(Instruction::SetMem(3, DoubleRegisterTarget::HL)),
            0xDF => Some(Instruction::SetBit(3, RegisterTarget::A)),
            0xE0 => Some(Instruction::SetBit(4, RegisterTarget::B)),
            0xE1 => Some(Instruction::SetBit(4, RegisterTarget::C)),
            0xE2 => Some(Instruction::SetBit(4, RegisterTarget::D)),
            0xE3 => Some(Instruction::SetBit(4, RegisterTarget::E)),
            0xE4 => Some(Instruction::SetBit(4, RegisterTarget::H)),
            0xE5 => Some(Instruction::SetBit(4, RegisterTarget::L)),
            0xE6 => Some(Instruction::SetMem(4, DoubleRegisterTarget::HL)),
            0xE7 => Some(Instruction::SetBit(4, RegisterTarget::A)),
            0xE8 => Some(Instruction::SetBit(5, RegisterTarget::B)),
            0xE9 => Some(Instruction::SetBit(5, RegisterTarget::C)),
            0xEA => Some(Instruction::SetBit(5, RegisterTarget::D)),
            0xEB => Some(Instruction::SetBit(5, RegisterTarget::E)),
            0xEC => Some(Instruction::SetBit(5, RegisterTarget::H)),
            0xED => Some(Instruction::SetBit(5, RegisterTarget::L)),
            0xEE => Some(Instruction::SetMem(5, DoubleRegisterTarget::HL)),
            0xEF => Some(Instruction::SetBit(5, RegisterTarget::A)),
            0xF0 => Some(Instruction::SetBit(6, RegisterTarget::B)),
            0xF1 => Some(Instruction::SetBit(6, RegisterTarget::C)),
            0xF2 => Some(Instruction::SetBit(6, RegisterTarget::D)),
            0xF3 => Some(Instruction::SetBit(6, RegisterTarget::E)),
            0xF4 => Some(Instruction::SetBit(6, RegisterTarget::H)),
            0xF5 => Some(Instruction::SetBit(6, RegisterTarget::L)),
            0xF6 => Some(Instruction::SetMem(6, DoubleRegisterTarget::HL)),
            0xF7 => Some(Instruction::SetBit(6, RegisterTarget::A)),
            0xF8 => Some(Instruction::SetBit(7, RegisterTarget::B)),
            0xF9 => Some(Instruction::SetBit(7, RegisterTarget::C)),
            0xFA => Some(Instruction::SetBit(7, RegisterTarget::D)),
            0xFB => Some(Instruction::SetBit(7, RegisterTarget::E)),
            0xFC => Some(Instruction::SetBit(7, RegisterTarget::H)),
            0xFD => Some(Instruction::SetBit(7, RegisterTarget::L)),
            0xFE => Some(Instruction::SetMem(7, DoubleRegisterTarget::HL)),
            0xFF => Some(Instruction::SetBit(7, RegisterTarget::A)),
        }
    }
}

} // verus!
