//! The register file: seven general registers and the flags.

use vstd::prelude::*;
use vstd::std_specs::convert::FromSpecImpl;
use crate::word::{high_byte, join, low_byte, lower, upper, word};

verus! {

/// The four condition flags, kept apart as booleans.
///
/// As a byte they occupy the upper nibble: zero in bit 7, subtract in bit 6,
/// half-carry in bit 5, carry in bit 4. The lower nibble is always zero.
#[derive(Clone, Copy, Debug, PartialEq, Eq, Structural)]
pub struct FlagsRegister {
    pub zero: bool,
    pub subtract: bool,
    pub half_carry: bool,
    pub carry: bool,
}

impl FlagsRegister {
    /// The flags packed into a byte.
    pub open spec fn byte(self) -> u8 {
        ((if self.zero {
            128int
        } else {
            0int
        }) + (if self.subtract {
            64int
        } else {
            0int
        }) + (if self.half_carry {
            32int
        } else {
            0int
        }) + (if self.carry {
            16int
        } else {
            0int
        })) as u8
    }

    /// The flags that a byte holds in its upper nibble.
    pub open spec fn of_byte(byte: u8) -> FlagsRegister {
        FlagsRegister {
            zero: (byte / 128) % 2 == 1,
            subtract: (byte / 64) % 2 == 1,
            half_carry: (byte / 32) % 2 == 1,
            carry: (byte / 16) % 2 == 1,
        }
    }

    /// Packing flags and unpacking the byte gives the flags back, and the
    /// packed byte has an empty lower nibble.
    pub proof fn lemma_pack_unpack(self)
        ensures
            Self::of_byte(self.byte()) == self,
            self.byte() % 16 == 0,
    {
    }

    /// Unpacking a byte and packing the flags keeps the upper nibble and
    /// clears the lower one.
    pub proof fn lemma_unpack_pack(byte: u8)
        ensures
            Self::of_byte(byte).byte() == byte - byte % 16,
    {
    }
}

impl From<FlagsRegister> for u8 {
    /// Packs the flags into a byte.
    fn from(flags: FlagsRegister) -> (byte: u8) {
        let zero: u8 = if flags.zero { 1 } else { 0 };
        let subtract: u8 = if flags.subtract { 1 } else { 0 };
        let half_carry: u8 = if flags.half_carry { 1 } else { 0 };
        let carry: u8 = if flags.carry { 1 } else { 0 };
        assert(zero <= 1 && subtract <= 1 && half_carry <= 1 && carry <= 1 ==> (zero << 7 | subtract
            << 6 | half_carry << 5 | carry << 4) == zero * 128 + subtract * 64 + half_carry * 32
            + carry * 16) by (bit_vector);
        zero << 7 | subtract << 6 | half_carry << 5 | carry << 4
    }
}

impl FromSpecImpl<FlagsRegister> for u8 {
    open spec fn obeys_from_spec() -> bool {
        true
    }

    open spec fn from_spec(flags: FlagsRegister) -> u8 {
        flags.byte()
    }
}

impl From<u8> for FlagsRegister {
    /// Unpacks the flags from the upper nibble of a byte.
    fn from(byte: u8) -> (flags: FlagsRegister) {
        assert((byte >> 7) & 1 == (byte / 128) % 2 && (byte >> 6) & 1 == (byte / 64) % 2 && (byte
            >> 5) & 1 == (byte / 32) % 2 && (byte >> 4) & 1 == (byte / 16) % 2) by (bit_vector);
        FlagsRegister {
            zero: (byte >> 7) & 1 != 0,
            subtract: (byte >> 6) & 1 != 0,
            half_carry: (byte >> 5) & 1 != 0,
            carry: (byte >> 4) & 1 != 0,
        }
    }
}

impl FromSpecImpl<u8> for FlagsRegister {
    open spec fn obeys_from_spec() -> bool {
        true
    }

    open spec fn from_spec(byte: u8) -> FlagsRegister {
        FlagsRegister::of_byte(byte)
    }
}

/// The register file.
#[derive(Clone, Copy, Debug, PartialEq, Eq, Structural)]
pub struct Registers {
    pub a: u8,
    pub b: u8,
    pub c: u8,
    pub d: u8,
    pub e: u8,
    pub f: FlagsRegister,
    pub h: u8,
    pub l: u8,
}

impl Registers {
    /// The register file with every register and flag cleared.
    pub open spec fn zeroed() -> Registers {
        Registers {
            a: 0,
            b: 0,
            c: 0,
            d: 0,
            e: 0,
            f: FlagsRegister { zero: false, subtract: false, half_carry: false, carry: false },
            h: 0,
            l: 0,
        }
    }

    /// The pair BC as one word.
    pub open spec fn bc(self) -> u16 {
        word(self.b, self.c)
    }

    /// The pair DE as one word.
    pub open spec fn de(self) -> u16 {
        word(self.d, self.e)
    }

    /// The pair HL as one word.
    pub open spec fn hl(self) -> u16 {
        word(self.h, self.l)
    }

    /// The pair AF as one word; its lower byte is the packed flags.
    pub open spec fn af(self) -> u16 {
        word(self.a, self.f.byte())
    }

    /// The registers after a word was stored into BC.
    pub open spec fn with_bc(self, value: u16) -> Registers {
        Registers { b: high_byte(value), c: low_byte(value), ..self }
    }

    /// The registers after a word was stored into DE.
    pub open spec fn with_de(self, value: u16) -> Registers {
        Registers { d: high_byte(value), e: low_byte(value), ..self }
    }

    /// The registers after a word was stored into HL.
    pub open spec fn with_hl(self, value: u16) -> Registers {
        Registers { h: high_byte(value), l: low_byte(value), ..self }
    }

    /// The registers after a word was stored into AF; the lower nibble of
    /// the word is dropped.
    pub open spec fn with_af(self, value: u16) -> Registers {
        Registers { a: high_byte(value), f: FlagsRegister::of_byte(low_byte(value)), ..self }
    }

    /// The register file with every register and flag cleared.
    pub fn initialize() -> (registers: Registers)
        ensures
            registers == Registers::zeroed(),
    {
        Registers {
            a: 0,
            b: 0,
            c: 0,
            d: 0,
            e: 0,
            h: 0,
            l: 0,
            f: FlagsRegister { zero: false, subtract: false, half_carry: false, carry: false },
        }
    }

    /// Reads the pair BC.
    pub fn get_bc(&self) -> (value: u16)
        ensures
            value == self.bc(),
    {
        join(self.b, self.c)
    }

    /// Stores a word into the pair BC.
    pub fn set_bc(&mut self, value: u16)
        ensures
            *final(self) == old(self).with_bc(value),
    {
        self.b = upper(value);
        self.c = lower(value);
    }

    /// Reads the pair DE.
    pub fn get_de(&self) -> (value: u16)
        ensures
            value == self.de(),
    {
        join(self.d, self.e)
    }

    /// Stores a word into the pair DE.
    pub fn set_de(&mut self, value: u16)
        ensures
            *final(self) == old(self).with_de(value),
    {
        self.d = upper(value);
        self.e = lower(value);
    }

    /// Reads the pair HL.
    pub fn get_hl(&self) -> (value: u16)
        ensures
            value == self.hl(),
    {
        join(self.h, self.l)
    }

    /// Stores a word into the pair HL.
    pub fn set_hl(&mut self, value: u16)
        ensures
            *final(self) == old(self).with_hl(value),
    {
        self.h = upper(value);
        self.l = lower(value);
    }

    /// Reads the pair AF. The lower byte is the packed flags, so its lower
    /// nibble is zero.
    pub fn get_af(&self) -> (value: u16)
        ensures
            value == self.af(),
    {
        join(self.a, u8::from(self.f))
    }

    /// Stores a word into the pair AF. The flags take the upper nibble of
    /// the lower byte; its lower nibble is dropped.
    pub fn set_af(&mut self, value: u16)
        ensures
            *final(self) == old(self).with_af(value),
    {
        self.a = upper(value);
        self.f = FlagsRegister::from(lower(value));
    }

    /// The zero flag as 0 or 1.
    pub fn get_zero(&self) -> (bit: u8)
        ensures
            bit == (if self.f.zero { 1u8 } else { 0u8 }),
    {
        if self.f.zero { 1 } else { 0 }
    }

    /// The subtract flag as 0 or 1.
    pub fn get_subtract(&self) -> (bit: u8)
        ensures
            bit == (if self.f.subtract { 1u8 } else { 0u8 }),
    {
        if self.f.subtract { 1 } else { 0 }
    }

    /// The carry flag as 0 or 1.
    pub fn get_carry(&self) -> (bit: u8)
        ensures
            bit == (if self.f.carry { 1u8 } else { 0u8 }),
    {
        if self.f.carry { 1 } else { 0 }
    }

    /// The half-carry flag as 0 or 1.
    pub fn get_half_carry(&self) -> (bit: u8)
        ensures
            bit == (if self.f.half_carry { 1u8 } else { 0u8 }),
    {
        if self.f.half_carry { 1 } else { 0 }
    }

    /// Sets the zero flag.
    pub fn flag_zero(&mut self)
        ensures
            *final(self) == (Registers {
                f: FlagsRegister { zero: true, ..old(self).f },
                ..*old(self)
            }),
    {
        self.f.zero = true;
    }

    /// Clears the zero flag.
    pub fn clear_zero(&mut self)
        ensures
            *final(self) == (Registers {
                f: FlagsRegister { zero: false, ..old(self).f },
                ..*old(self)
            }),
    {
        self.f.zero = false;
    }

    /// Sets the subtract flag.
    pub fn flag_subtract(&mut self)
        ensures
            *final(self) == (Registers {
                f: FlagsRegister { subtract: true, ..old(self).f },
                ..*old(self)
            }),
    {
        self.f.subtract = true;
    }

    /// Clears the subtract flag.
    pub fn clear_subtract(&mut self)
        ensures
            *final(self) == (Registers {
                f: FlagsRegister { subtract: false, ..old(self).f },
                ..*old(self)
            }),
    {
        self.f.subtract = false;
    }

    /// Sets the carry flag.
    pub fn flag_carry(&mut self)
        ensures
            *final(self) == (Registers {
                f: FlagsRegister { carry: true, ..old(self).f },
                ..*old(self)
            }),
    {
        self.f.carry = true;
    }

    /// Clears the carry flag.
    pub fn clear_carry(&mut self)
        ensures
            *final(self) == (Registers {
                f: FlagsRegister { carry: false, ..old(self).f },
                ..*old(self)
            }),
    {
        self.f.carry = false;
    }

    /// Sets the half-carry flag.
    pub fn flag_half_carry(&mut self)
        ensures
            *final(self) == (Registers {
                f: FlagsRegister { half_carry: true, ..old(self).f },
                ..*old(self)
            }),
    {
        self.f.half_carry = true;
    }

    /// Clears the half-carry flag.
    pub fn clear_half_carry(&mut self)
        ensures
            *final(self) == (Registers {
                f: FlagsRegister { half_carry: false, ..old(self).f },
                ..*old(self)
            }),
    {
        self.f.half_carry = false;
    }

    /// Reading a pair that was just stored gives the stored word back.
    pub proof fn lemma_pair_round_trip(self, value: u16)
        ensures
            self.with_bc(value).bc() == value,
            self.with_de(value).de() == value,
            self.with_hl(value).hl() == value,
    {
    }

    /// The flags take only the upper nibble of a word stored into AF, so
    /// reading AF gives the word with its lower nibble cleared.
    pub proof fn lemma_af_round_trip(self, value: u16)
        ensures
            self.with_af(value).af() == value - value % 16,
            self.af() % 16 == 0,
    {
        let low = low_byte(value);
        FlagsRegister::lemma_unpack_pack(low);
        self.f.lemma_pack_unpack();
        assert(low % 16 == value % 16);
    }
}

} // verus!
