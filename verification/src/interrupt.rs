//! The interrupt kinds, their priority, their bits and their vectors.

use vstd::prelude::*;
use vstd::std_specs::convert::FromSpecImpl;
use crate::memory::{JOYPAD_BIT, SERIAL_BIT, STAT_BIT, TIMER_BIT, VBLANK_BIT};

verus! {

/// An interrupt kind, or nothing. The kinds are listed from the highest
/// priority to the lowest.
#[derive(Clone, Copy, Debug, PartialEq, Eq, Structural)]
pub enum Interrupt {
    VBlank,
    LCDSTAT,
    Timer,
    Serial,
    Joypad,
    Nothing,
}

/// Whether bit `index` of a register is set.
pub open spec fn has_bit(register: u8, index: u8) -> bool {
    (register >> index) & 1 == 1
}

impl Interrupt {
    /// The position of the kind's bit in the request and enable registers.
    pub open spec fn bit(self) -> u8
        recommends
            self != Interrupt::Nothing,
    {
        match self {
            Interrupt::VBlank => 0,
            Interrupt::LCDSTAT => 1,
            Interrupt::Timer => 2,
            Interrupt::Serial => 3,
            Interrupt::Joypad => 4,
            Interrupt::Nothing => 5,
        }
    }

    /// The register value with only the kind's bit set; zero for none.
    pub open spec fn mask(self) -> u8 {
        match self {
            Interrupt::VBlank => 1,
            Interrupt::LCDSTAT => 2,
            Interrupt::Timer => 4,
            Interrupt::Serial => 8,
            Interrupt::Joypad => 16,
            Interrupt::Nothing => 0,
        }
    }

    /// The address at which the kind is served.
    pub open spec fn vector(self) -> u16
        recommends
            self != Interrupt::Nothing,
    {
        match self {
            Interrupt::VBlank => 0x40,
            Interrupt::LCDSTAT => 0x48,
            Interrupt::Timer => 0x50,
            Interrupt::Serial => 0x58,
            Interrupt::Joypad => 0x60,
            Interrupt::Nothing => 0,
        }
    }

    /// The kind of the highest priority whose bit is set in a register, or
    /// none when no kind's bit is set.
    pub open spec fn pending(register: u8) -> Interrupt {
        if has_bit(register, 0) {
            Interrupt::VBlank
        } else if has_bit(register, 1) {
            Interrupt::LCDSTAT
        } else if has_bit(register, 2) {
            Interrupt::Timer
        } else if has_bit(register, 3) {
            Interrupt::Serial
        } else if has_bit(register, 4) {
            Interrupt::Joypad
        } else {
            Interrupt::Nothing
        }
    }

    /// The address at which an interrupt is served. There is no address for
    /// none.
    pub fn address(self) -> (address: u16)
        requires
            self != Interrupt::Nothing,
        ensures
            address == self.vector(),
    {
        match self {
            Interrupt::VBlank => 0x40,
            Interrupt::LCDSTAT => 0x48,
            Interrupt::Timer => 0x50,
            Interrupt::Serial => 0x58,
            Interrupt::Joypad => 0x60,
            Interrupt::Nothing => unreached(),
        }
    }

    /// The pending kind has its bit set and no kind of higher priority has;
    /// none is pending exactly when the five lower bits are clear.
    pub proof fn lemma_pending_is_highest(register: u8)
        ensures
            Self::pending(register) != Interrupt::Nothing ==> has_bit(
                register,
                Self::pending(register).bit(),
            ),
            forall|index: u8|
                index < Self::pending(register).bit() ==> !has_bit(register, index),
            Self::pending(register) == Interrupt::Nothing <==> register % 32 == 0,
    {
        assert(register % 32 == 0 <==> !has_bit(register, 0) && !has_bit(register, 1) && !has_bit(
            register,
            2,
        ) && !has_bit(register, 3) && !has_bit(register, 4)) by (bit_vector);
        assert forall|index: u8| index < Self::pending(register).bit() implies !has_bit(
            register,
            index,
        ) by {
            if index == 0 {
            } else if index == 1 {
            } else if index == 2 {
            } else if index == 3 {
            } else {
            }
        }
    }

    /// A register that holds one kind's bit alone has that kind pending, and
    /// clearing the bit of the pending kind leaves a register in which that
    /// kind is no longer set while every other bit stays.
    pub proof fn lemma_mask(self, register: u8, index: u8)
        requires
            self != Interrupt::Nothing,
        ensures
            Self::pending(self.mask()) == self,
            !has_bit(register & !self.mask(), self.bit()),
            index != self.bit() ==> has_bit(register & !self.mask(), index) == has_bit(
                register,
                index,
            ),
            has_bit(register, self.bit()) ==> register & !self.mask() == register - self.mask(),
    {
        assert(has_bit(1, 0) && !has_bit(2, 0) && has_bit(2, 1) && !has_bit(4, 0) && !has_bit(4, 1)
            && has_bit(4, 2) && !has_bit(8, 0) && !has_bit(8, 1) && !has_bit(8, 2) && has_bit(8, 3)
            && !has_bit(16, 0) && !has_bit(16, 1) && !has_bit(16, 2) && !has_bit(16, 3) && has_bit(
            16,
            4,
        )) by (bit_vector);
        let bit = self.bit();
        let mask = self.mask();
        assert(bit <= 4 && mask == 1u8 << bit ==> !has_bit(register & !mask, bit) && (index != bit
            ==> has_bit(register & !mask, index) == has_bit(register, index)) && (has_bit(
            register,
            bit,
        ) ==> register & !mask == register - mask)) by (bit_vector);
        assert(1u8 << 0u8 == 1 && 1u8 << 1u8 == 2 && 1u8 << 2u8 == 4 && 1u8 << 3u8 == 8 && 1u8
            << 4u8 == 16) by (bit_vector);
    }
}

impl From<u8> for Interrupt {
    fn from(register: u8) -> (interrupt: Interrupt) {
        if (register >> VBLANK_BIT) & 1 == 1 {
            return Interrupt::VBlank;
        }
        if (register >> STAT_BIT) & 1 == 1 {
            return Interrupt::LCDSTAT;
        }
        if (register >> TIMER_BIT) & 1 == 1 {
            return Interrupt::Timer;
        }
        if (register >> SERIAL_BIT) & 1 == 1 {
            return Interrupt::Serial;
        }
        if (register >> JOYPAD_BIT) & 1 == 1 {
            return Interrupt::Joypad;
        }
        return Interrupt::Nothing;
    }
}

impl FromSpecImpl<u8> for Interrupt {
    open spec fn obeys_from_spec() -> bool {
        true
    }

    open spec fn from_spec(register: u8) -> Interrupt {
        Interrupt::pending(register)
    }
}

impl From<Interrupt> for u8 {
    fn from(interrupt: Interrupt) -> (mask: u8) {
        assert(1u8 << 0u8 == 1 && 1u8 << 1u8 == 2 && 1u8 << 2u8 == 4 && 1u8 << 3u8 == 8 && 1u8
            << 4u8 == 16) by (bit_vector);
        match interrupt {
            Interrupt::VBlank => 1 << VBLANK_BIT,
            Interrupt::LCDSTAT => 1 << STAT_BIT,
            Interrupt::Timer => 1 << TIMER_BIT,
            Interrupt::Serial => 1 << SERIAL_BIT,
            Interrupt::Joypad => 1 << JOYPAD_BIT,
            Interrupt::Nothing => 0,
        }
    }
}

impl FromSpecImpl<Interrupt> for u8 {
    open spec fn obeys_from_spec() -> bool {
        true
    }

    open spec fn from_spec(interrupt: Interrupt) -> u8 {
        interrupt.mask()
    }
}

} // verus!
