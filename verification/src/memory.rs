//! The address space: 65536 bytes, the echo of work RAM, and the registers
//! that are mapped into it.

use vstd::prelude::*;
use crate::alu::sum;

verus! {

/// Number of bytes that a sixteen-bit address reaches.
pub const MEMORY_SIZE: usize = 0x10000;

/// Holds the byte that the program sends over the serial port.
pub const SERIAL_DATA_REGISTER: u16 = 0xFF01;

/// Holds 0x81 while a byte waits to be taken from the serial port.
pub const SERIAL_CONTROL_REGISTER: u16 = 0xFF02;

/// The divider: counts up at a fixed rate, and is reset by any write.
pub const DIVIDER_REGISTER: u16 = 0xFF04;

/// The counter of the programmable timer.
pub const TIMER_REGISTER: u16 = 0xFF05;

/// The value that the timer is reloaded with when it overflows.
pub const TIMER_MODULO_REGISTER: u16 = 0xFF06;

/// Bit 2 enables the timer; bits 0 and 1 select its speed.
pub const TIMER_CONTROL_REGISTER: u16 = 0xFF07;

/// One bit for each interrupt kind that is requested.
pub const INTERRUPT_REQUEST_REGISTER: u16 = 0xFF0F;

/// One bit for each interrupt kind that may be served.
pub const INTERRUPT_ENABLE_REGISTER: u16 = 0xFFFF;

/// Position of the vertical-blank bit in the interrupt registers.
pub const VBLANK_BIT: u8 = 0;

/// Position of the display-status bit in the interrupt registers.
pub const STAT_BIT: u8 = 1;

/// Position of the timer bit in the interrupt registers.
pub const TIMER_BIT: u8 = 2;

/// Position of the serial bit in the interrupt registers.
pub const SERIAL_BIT: u8 = 3;

/// Position of the joypad bit in the interrupt registers.
pub const JOYPAD_BIT: u8 = 4;

/// First address of the work RAM that the echo repeats.
pub const WORK_RAM_START: u16 = 0xC000;

/// Last address of the work RAM that the echo repeats.
pub const WORK_RAM_END: u16 = 0xDDFF;

/// First address of the echo, which lies 0x2000 above work RAM.
pub const ECHO_RAM_START: u16 = 0xE000;

/// Last address of the echo.
pub const ECHO_RAM_END: u16 = 0xFDFF;

/// Why an image could not be loaded.
#[derive(Clone, Copy, Debug, PartialEq, Eq, Structural)]
pub enum LoadError {
    /// The image holds no byte.
    Empty,
    /// The image holds more bytes than the address space.
    TooLarge,
}

/// The address space.
pub struct Memory {
    memory: [u8; 0x10000],
}

/// The bytes after `value` was written at `address`.
///
/// A write to the divider register stores zero whatever the value. A write
/// into work RAM or into its echo stores the value on both sides. Any other
/// write stores the value at the address alone.
pub open spec fn store(bytes: Seq<u8>, address: u16, value: u8) -> Seq<u8> {
    let index = address as int;
    if address == DIVIDER_REGISTER {
        bytes.update(index, 0)
    } else if WORK_RAM_START <= address <= WORK_RAM_END {
        bytes.update(index, value).update(index + 0x2000, value)
    } else if ECHO_RAM_START <= address <= ECHO_RAM_END {
        bytes.update(index, value).update(index - 0x2000, value)
    } else {
        bytes.update(index, value)
    }
}

/// The bytes after the divider register advanced by a number of ticks,
/// wrapping at 256. The divider is advanced in place: this is no write, and
/// does not reset it.
pub open spec fn with_divider_advanced(bytes: Seq<u8>, increments: u8) -> Seq<u8> {
    bytes.update(DIVIDER_REGISTER as int, sum(bytes[DIVIDER_REGISTER as int], increments))
}

/// The bytes after the timer bit of the interrupt request register was
/// raised.
pub open spec fn with_timer_requested(bytes: Seq<u8>) -> Seq<u8> {
    bytes.update(
        INTERRUPT_REQUEST_REGISTER as int,
        bytes[INTERRUPT_REQUEST_REGISTER as int] | 4,
    )
}

/// The address space that an image is loaded into: the image from address 0
/// on, and zero above it.
pub open spec fn loaded(image: Seq<u8>) -> Seq<u8> {
    Seq::new(
        0x10000,
        |i: int|
            if i < image.len() {
                image[i]
            } else {
                0u8
            },
    )
}

/// Holds when work RAM and its echo agree byte for byte.
pub open spec fn mirrored(bytes: Seq<u8>) -> bool {
    forall|a: int| 0xC000 <= a <= 0xDDFF ==> #[trigger] bytes[a] == bytes[a + 0x2000]
}

impl View for Memory {
    type V = Seq<u8>;

    closed spec fn view(&self) -> Seq<u8> {
        self.memory@
    }
}

impl Memory {
    /// The view of an address space always has 65536 bytes. Call this where
    /// a proof reads a byte after a write.
    pub proof fn lemma_size(&self)
        ensures
            self@.len() == 0x10000,
    {
    }

    /// Builds the address space from an image, which is placed at address 0;
    /// the bytes above it are zero. An empty image and one that is larger
    /// than the address space are refused.
    pub fn initialize(image: &[u8]) -> (result: Result<Memory, LoadError>)
        ensures
            image@.len() == 0 ==> result == Err::<Memory, LoadError>(LoadError::Empty),
            image@.len() > 0x10000 ==> result == Err::<Memory, LoadError>(LoadError::TooLarge),
            0 < image@.len() <= 0x10000 ==> result.is_ok() && result.unwrap()@ == loaded(image@),
    {
        if image.len() == 0 {
            return Err(LoadError::Empty);
        }
        if image.len() > MEMORY_SIZE {
            return Err(LoadError::TooLarge);
        }
        let mut memory: [u8; 0x10000] = [0;0x10000];
        let mut index: usize = 0;
        while index < image.len()
            invariant
                index <= image@.len() <= 0x10000,
                forall|i: int| 0 <= i < index ==> memory@[i] == image@[i],
                forall|i: int| index <= i < 0x10000 ==> memory@[i] == 0,
            decreases image@.len() - index,
        {
            memory[index] = image[index];
            index += 1;
        }
        assert(memory@ =~= loaded(image@));
        Ok(Memory { memory })
    }

    /// Reads the byte at an address. Reading has no side effect.
    pub fn read_byte(&self, address: u16) -> (value: u8)
        ensures
            value == self@[address as int],
    {
        self.memory[address as usize]
    }

    /// Writes a byte at an address, with the effects that `store` describes.
    pub fn write_byte(&mut self, address: u16, value: u8)
        ensures
            final(self)@ == store(old(self)@, address, value),
    {
        let index = address as usize;
        if address == DIVIDER_REGISTER {
            self.memory[index] = 0x00;
        } else if WORK_RAM_START <= address && address <= WORK_RAM_END {
            self.memory[index] = value;
            self.memory[index + 0x2000] = value;
        } else if ECHO_RAM_START <= address && address <= ECHO_RAM_END {
            self.memory[index] = value;
            self.memory[index - 0x2000] = value;
        } else {
            self.memory[index] = value;
        }
    }

    /// Advances the divider register by a number of ticks, wrapping at 256.
    pub fn increment_div(&mut self, increments: u8)
        ensures
            final(self)@ == with_divider_advanced(old(self)@, increments),
    {
        self.memory[DIVIDER_REGISTER as usize] = increments.wrapping_add(
            self.memory[DIVIDER_REGISTER as usize],
        );
    }

    /// Raises the timer bit of the interrupt request register.
    pub fn flag_timer_interrrupt(&mut self)
        ensures
            final(self)@ == with_timer_requested(old(self)@),
    {
        let index = INTERRUPT_REQUEST_REGISTER as usize;
        assert(1u8 << 2 == 4) by (bit_vector);
        self.memory[index] = self.memory[index] | 1 << TIMER_BIT;
    }

    /// Copies `len` bytes from `start` on, for a dump.
    pub fn range(&self, start: usize, len: usize) -> (bytes: Vec<u8>)
        requires
            start + len <= 0x10000,
        ensures
            bytes@ == self@.subrange(start as int, start + len),
    {
        let mut bytes: Vec<u8> = Vec::new();
        let mut index: usize = 0;
        while index < len
            invariant
                index <= len,
                start + len <= 0x10000,
                bytes@ == self@.subrange(start as int, start + index),
            decreases len - index,
        {
            bytes.push(self.memory[start + index]);
            index += 1;
            assert(bytes@ =~= self@.subrange(start as int, start + index));
        }
        bytes
    }
}

/// After a write into work RAM the echo holds the written byte 0x2000 above,
/// and after a write into the echo work RAM holds it 0x2000 below.
pub proof fn lemma_write_mirrors(bytes: Seq<u8>, address: u16, value: u8)
    requires
        bytes.len() == 0x10000,
    ensures
        0xC000 <= address <= 0xDDFF ==> store(bytes, address, value)[address + 0x2000] == value
            && store(bytes, address, value)[address as int] == value,
        0xE000 <= address <= 0xFDFF ==> store(bytes, address, value)[address - 0x2000] == value
            && store(bytes, address, value)[address as int] == value,
{
}

/// After any write to the divider register it reads as zero.
pub proof fn lemma_divider_write_resets(bytes: Seq<u8>, value: u8)
    requires
        bytes.len() == 0x10000,
    ensures
        store(bytes, DIVIDER_REGISTER, value)[DIVIDER_REGISTER as int] == 0,
{
}

/// A write keeps the size of the address space, changes no byte other than
/// the one addressed and its partner in the echo, and, outside the divider
/// register, leaves the written byte at the address.
pub proof fn lemma_store_frame(bytes: Seq<u8>, address: u16, value: u8, other: u16)
    requires
        bytes.len() == 0x10000,
    ensures
        store(bytes, address, value).len() == 0x10000,
        address != DIVIDER_REGISTER ==> store(bytes, address, value)[address as int] == value,
        other != address && other as int != address + 0x2000 && other as int != address - 0x2000
            ==> store(bytes, address, value)[other as int] == bytes[other as int],
{
}

/// Once work RAM and its echo agree, every write keeps them in agreement.
pub proof fn lemma_store_keeps_mirror(bytes: Seq<u8>, address: u16, value: u8)
    requires
        bytes.len() == 0x10000,
        mirrored(bytes),
    ensures
        mirrored(store(bytes, address, value)),
{
    let after = store(bytes, address, value);
    assert forall|a: int| 0xC000 <= a <= 0xDDFF implies #[trigger] after[a] == after[a
        + 0x2000] by {
        assert(bytes[a] == bytes[a + 0x2000]);
    }
}

} // verus!
