//! Arithmetic on bytes and the flags that it leaves behind.

use vstd::prelude::*;
use crate::instruction::ShiftOp;
use crate::registers::FlagsRegister;

verus! {

/// An integer between -256 and 511 brought into a byte, wrapping at 256.
pub open spec fn wrap_byte(value: int) -> u8 {
    if value > 255 {
        (value - 256) as u8
    } else if value < 0 {
        (value + 256) as u8
    } else {
        value as u8
    }
}

/// An integer between -65536 and 131071 brought into a word, wrapping at
/// 65536.
pub open spec fn wrap_word(value: int) -> u16 {
    if value > 0xFFFF {
        (value - 0x10000) as u16
    } else if value < 0 {
        (value + 0x10000) as u16
    } else {
        value as u16
    }
}

/// The sum of two bytes, wrapping at 256.
pub open spec fn sum(base: u8, value: u8) -> u8 {
    wrap_byte(base + value)
}

/// The difference of two bytes, wrapping at 256.
pub open spec fn difference(base: u8, value: u8) -> u8 {
    wrap_byte(base - value)
}

/// The flags after an addition: zero when the wrapped sum is zero, carry
/// when the sum left the byte, half-carry when the sum of the lower nibbles
/// left the nibble.
pub open spec fn add_flags(base: u8, value: u8) -> FlagsRegister {
    FlagsRegister {
        zero: sum(base, value) == 0,
        subtract: false,
        half_carry: base % 16 + value % 16 > 15,
        carry: base + value > 255,
    }
}

/// The flags after a subtraction: zero when the operands are equal, carry
/// when the subtrahend is the larger, half-carry when its lower nibble is the
/// larger.
pub open spec fn sub_flags(base: u8, value: u8) -> FlagsRegister {
    FlagsRegister {
        zero: difference(base, value) == 0,
        subtract: true,
        half_carry: base % 16 < value % 16,
        carry: base < value,
    }
}

/// The flags after a bitwise operation with the given result. Only the
/// conjunction sets the half-carry.
pub open spec fn logic_flags(result: u8, half_carry: bool) -> FlagsRegister {
    FlagsRegister { zero: result == 0, subtract: false, half_carry, carry: false }
}

/// The carry flag as a number.
pub open spec fn carry_bit(carry: bool) -> u8 {
    if carry {
        1
    } else {
        0
    }
}

/// The signed value of a displacement byte, in two's complement.
pub open spec fn signed(displacement: u8) -> int {
    if displacement >= 128 {
        displacement - 256
    } else {
        displacement as int
    }
}

/// An address moved by a signed displacement, wrapping at 65536.
pub open spec fn displaced(address: u16, displacement: u8) -> u16 {
    wrap_word(address + signed(displacement))
}

/// An address moved by `count` bytes, up or down, wrapping at 65536.
pub open spec fn next(address: u16, count: int) -> u16 {
    wrap_word(address + count)
}

/// The accumulator and the flags after a decimal adjustment.
///
/// The upper digit is corrected by 0x60 when the carry is set or, after an
/// addition, the accumulator is above 0x99; the lower digit by 0x06 when the
/// half-carry is set or, after an addition, the lower nibble is above 9. The
/// correction is added after an addition and subtracted after a subtraction.
/// The carry is set exactly when the upper digit was corrected, the
/// half-carry is cleared, zero tells whether the result is zero, and the
/// subtract flag stays.
pub open spec fn decimal_adjusted(a: u8, flags: FlagsRegister) -> (u8, FlagsRegister) {
    let fix_high = flags.carry || (!flags.subtract && a > 0x99);
    let fix_low = flags.half_carry || (!flags.subtract && a % 16 > 9);
    let adjuster: u8 = ((if fix_high {
        0x60int
    } else {
        0int
    }) + (if fix_low {
        0x06int
    } else {
        0int
    })) as u8;
    let result = if flags.subtract {
        difference(a, adjuster)
    } else {
        sum(a, adjuster)
    };
    (
        result,
        FlagsRegister {
            zero: result == 0,
            subtract: flags.subtract,
            half_carry: false,
            carry: fix_high,
        },
    )
}

/// A byte shifted left by one bit. The bit that enters at the bottom is the
/// bit that left at the top for a rotation, the carry flag for a rotation
/// through the carry, and zero otherwise.
pub open spec fn shifted_left(value: u8, operation: ShiftOp, carry: bool) -> u8 {
    let incoming: int = match operation {
        ShiftOp::Rotate | ShiftOp::RotateZ => value as int / 128,
        ShiftOp::IncludeCarry | ShiftOp::IncludeCarryZ => carry_bit(carry) as int,
        ShiftOp::Arithmetic | ShiftOp::Logical => 0,
    };
    ((value * 2) % 256 + incoming) as u8
}

/// A byte shifted right by one bit. The bit that enters at the top is the bit
/// that left at the bottom for a rotation, the carry flag for a rotation
/// through the carry, the old top bit for an arithmetic shift, and zero for a
/// logical one.
pub open spec fn shifted_right(value: u8, operation: ShiftOp, carry: bool) -> u8 {
    let incoming: int = match operation {
        ShiftOp::Rotate | ShiftOp::RotateZ => value as int % 2,
        ShiftOp::IncludeCarry | ShiftOp::IncludeCarryZ => carry_bit(carry) as int,
        ShiftOp::Arithmetic => value as int / 128,
        ShiftOp::Logical => 0,
    };
    (value / 2 + 128 * incoming) as u8
}

/// The flags after a shift with the given result and outgoing bit.
pub open spec fn shift_flags(result: u8, carry_out: bool) -> FlagsRegister {
    FlagsRegister { zero: result == 0, subtract: false, half_carry: false, carry: carry_out }
}

/// Whether bit `index` of a byte is set.
pub open spec fn bit_is_set(value: u8, index: u8) -> bool {
    value & (1u8 << index) != 0
}

/// A byte with bit `index` set.
pub open spec fn with_bit_set(value: u8, index: u8) -> u8 {
    value | (1u8 << index)
}

/// A byte with bit `index` cleared.
pub open spec fn with_bit_cleared(value: u8, index: u8) -> u8 {
    value & !(1u8 << index)
}

/// A byte whose lower nibble was moved into the upper nibble, on top of the
/// bits that the upper nibble already held. The lower nibble of the result
/// is empty.
pub open spec fn nibbles_folded(value: u8) -> u8 {
    ((value & 0x0F) << 4) | (value & 0xF0)
}

/// The complement of a byte.
pub open spec fn complement(value: u8) -> u8 {
    (255 - value) as u8
}

/// Adds two bytes and reports whether the sum left the byte and whether the
/// sum of the lower nibbles left the nibble.
pub fn add_bytes(base: u8, value: u8) -> (result: (u8, bool, bool))
    ensures
        result.0 == sum(base, value),
        result.1 == (base + value > 255),
        result.2 == (base % 16 + value % 16 > 15),
        result.2 == ((base & 0xF) + (value & 0xF) > 0xF),
{
    let new_value = base.wrapping_add(value);
    let did_overflow = value > 255 - base;
    assert((base & 0xF) == base % 16 && (value & 0xF) == value % 16) by (bit_vector);
    let half_carry = (base & 0xF) + (value & 0xF) > 0xF;
    (new_value, did_overflow, half_carry)
}

/// Subtracts a byte from another and reports whether the difference fell
/// below zero and whether the difference of the lower nibbles did.
pub fn sub_bytes(base: u8, value: u8) -> (result: (u8, bool, bool))
    ensures
        result.0 == difference(base, value),
        result.1 == (base < value),
        result.2 == (base % 16 < value % 16),
        result.2 == ((base & 0xF) < (value & 0xF)),
{
    let new_value = base.wrapping_sub(value);
    let did_overflow = base < value;
    assert((base & 0xF) == base % 16 && (value & 0xF) == value % 16) by (bit_vector);
    let half_carry = (base & 0xF) < (value & 0xF);
    (new_value, did_overflow, half_carry)
}

/// Moves an address by a signed displacement. The displacement is widened
/// with its sign before it is added.
pub fn displace(address: u16, displacement: u8) -> (moved: u16)
    ensures
        moved == displaced(address, displacement),
{
    let offset: i32 = if displacement >= 128 {
        displacement as i32 - 256
    } else {
        displacement as i32
    };
    let target: i32 = address as i32 + offset;
    if target < 0 {
        (target + 0x10000) as u16
    } else if target > 0xFFFF {
        (target - 0x10000) as u16
    } else {
        target as u16
    }
}

/// Shifts a byte left by one bit and returns the result with the bit that
/// left at the top.
pub fn shift_left(value: u8, operation: ShiftOp, carry: u8) -> (result: (u8, u8))
    requires
        carry <= 1,
    ensures
        result.0 == shifted_left(value, operation, carry == 1),
        result.1 == value / 128,
{
    assert((value & (1u8 << 7)) >> 7 == value / 128 && (value << 1) == (value * 2) % 256)
        by (bit_vector);
    let carry_out: u8 = (value & (1 << 7)) >> 7;
    let mut new_value: u8 = value << 1;
    match operation {
        ShiftOp::IncludeCarry | ShiftOp::IncludeCarryZ => {
            new_value += carry;
        },
        ShiftOp::Rotate | ShiftOp::RotateZ => {
            new_value += carry_out;
        },
        ShiftOp::Arithmetic | ShiftOp::Logical => {},
    }
    (new_value, carry_out)
}

/// Shifts a byte right by one bit and returns the result with the bit that
/// left at the bottom.
pub fn shift_right(value: u8, operation: ShiftOp, carry: u8) -> (result: (u8, u8))
    requires
        carry <= 1,
    ensures
        result.0 == shifted_right(value, operation, carry == 1),
        result.1 == value % 2,
{
    assert(value & 1 == value % 2 && value >> 1 == value / 2 && ((value >> 1) & (1u8 << 6)) << 1
        == 128 * (value / 128)) by (bit_vector);
    assert(carry <= 1 ==> carry << 7 == 128 * carry) by (bit_vector);
    let carry_out: u8 = value & 1;
    assert(carry_out <= 1 ==> carry_out << 7 == 128 * carry_out) by (bit_vector);
    let mut new_value: u8 = value >> 1;
    match operation {
        ShiftOp::Arithmetic => {
            new_value += (new_value & (1 << 6)) << 1;
        },
        ShiftOp::IncludeCarry | ShiftOp::IncludeCarryZ => {
            new_value += carry << 7;
        },
        ShiftOp::Rotate | ShiftOp::RotateZ => {
            new_value += carry_out << 7;
        },
        ShiftOp::Logical => {},
    }
    (new_value, carry_out)
}

/// Adjusts the accumulator to packed decimal.
pub fn decimal_adjust(a: u8, flags: FlagsRegister) -> (result: (u8, FlagsRegister))
    ensures
        result == decimal_adjusted(a, flags),
{
    let mut adjuster: u8 = 0;
    let mut carry = flags.carry;
    let subtract = flags.subtract;
    assert(a & 0x0F == a % 16) by (bit_vector);
    if flags.carry || (!subtract && a > 0x99) {
        adjuster += 0x60;
        carry = true;
    }
    if flags.half_carry || (!subtract && a & 0x0F > 0x09) {
        adjuster += 0x06;
    }
    let new_value = if subtract {
        a.wrapping_sub(adjuster)
    } else {
        a.wrapping_add(adjuster)
    };
    (new_value, FlagsRegister { zero: new_value == 0, subtract, half_carry: false, carry })
}

/// Clears one bit of a byte.
pub fn clear_bit(value: u8, index: u8) -> (result: (u8, bool))
    requires
        index <= 7,
    ensures
        result.0 == with_bit_cleared(value, index),
        result.1 == bit_is_set(value, index),
{
    let bit_finder: u8 = 1 << index;
    assert(index <= 7 ==> value & (1u8 << index) <= value && value - (value & (1u8 << index))
        == value & !(1u8 << index) && (value & (1u8 << index) == 0 || value & (1u8 << index) == (
    1u8 << index))) by (bit_vector);
    if value & bit_finder > 0 {
        (value - bit_finder, true)
    } else {
        (value, false)
    }
}

/// Moves the lower nibble of a byte into its upper nibble.
pub fn fold_nibbles(value: u8) -> (result: u8)
    ensures
        result == nibbles_folded(value),
{
    let lsb: u8 = value & 0x0F;
    let msb: u8 = value & 0xF0;
    (lsb << 4) | msb
}

/// Wrapping is the remainder of the division by the size of the type.
pub proof fn lemma_wrap_is_remainder(value: int)
    ensures
        -256 <= value < 512 ==> wrap_byte(value) == value % 256,
        -0x10000 <= value < 0x20000 ==> wrap_word(value) == value % 0x10000,
{
}

/// A set bit stays set and a cleared bit stays cleared, other bits are not
/// touched, and both operations do nothing when done twice.
pub proof fn lemma_bit_update(value: u8, index: u8, other: u8)
    by (bit_vector)
    requires
        index <= 7,
        other <= 7,
    ensures
        bit_is_set(with_bit_set(value, index), index),
        !bit_is_set(with_bit_cleared(value, index), index),
        other != index ==> (bit_is_set(with_bit_set(value, index), other) <==> bit_is_set(
            value,
            other,
        )),
        other != index ==> (bit_is_set(with_bit_cleared(value, index), other) <==> bit_is_set(
            value,
            other,
        )),
        bit_is_set(value, index) <==> (value / (1u8 << index)) % 2 == 1,
{
}

} // verus!
