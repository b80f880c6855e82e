//! Timer control register decoding and tick counting.

use vstd::prelude::*;
use vstd::std_specs::convert::FromSpecImpl;

verus! {

/// The four selectable rates of the programmable timer, named after the
/// processor clock divisor they stand for.
#[derive(Clone, Copy, Debug, PartialEq, Eq, Structural)]
pub enum TimerSpeed {
    Clock1024,
    Clock16,
    Clock64,
    Clock256,
}

/// The timer control register, unpacked.
#[derive(Clone, Copy, Debug, PartialEq, Eq, Structural)]
pub struct TimerControl {
    pub enabled: bool,
    pub speed: TimerSpeed,
}

impl TimerSpeed {
    /// Length of one timer period, in machine cycles.
    pub open spec fn period(self) -> int {
        match self {
            TimerSpeed::Clock1024 => 256,
            TimerSpeed::Clock16 => 4,
            TimerSpeed::Clock64 => 16,
            TimerSpeed::Clock256 => 64,
        }
    }

    /// The speed chosen by a two-bit selector.
    pub open spec fn of_index(index: u8) -> TimerSpeed
        recommends
            index <= 3,
    {
        if index == 0 {
            TimerSpeed::Clock1024
        } else if index == 1 {
            TimerSpeed::Clock16
        } else if index == 2 {
            TimerSpeed::Clock64
        } else {
            TimerSpeed::Clock256
        }
    }

    /// Decodes a two-bit speed selector.
    pub fn from_index(index: u8) -> (speed: TimerSpeed)
        requires
            index <= 3,
        ensures
            speed == Self::of_index(index),
    {
        match index {
            0 => TimerSpeed::Clock1024,
            1 => TimerSpeed::Clock16,
            2 => TimerSpeed::Clock64,
            _ => TimerSpeed::Clock256,
        }
    }
}

impl From<TimerSpeed> for usize {
    fn from(speed: TimerSpeed) -> (period: usize) {
        match speed {
            TimerSpeed::Clock1024 => 256,
            TimerSpeed::Clock16 => 4,
            TimerSpeed::Clock64 => 16,
            TimerSpeed::Clock256 => 64,
        }
    }
}

impl FromSpecImpl<TimerSpeed> for usize {
    open spec fn obeys_from_spec() -> bool {
        true
    }

    open spec fn from_spec(speed: TimerSpeed) -> usize {
        speed.period() as usize
    }
}

impl TimerControl {
    /// What a control byte means: bit 2 enables the timer, bits 0 and 1
    /// select its speed.
    pub open spec fn of_byte(byte: u8) -> TimerControl {
        TimerControl { enabled: (byte / 4) % 2 == 1, speed: TimerSpeed::of_index(byte % 4) }
    }
}

impl From<u8> for TimerControl {
    fn from(byte: u8) -> (control: TimerControl) {
        let enabled = (byte >> 2) & 1 == 1;
        let speed_index = byte & 0b11;
        assert((byte >> 2) & 1 == (byte / 4) % 2 && byte & 0b11 == byte % 4) by (bit_vector);
        TimerControl { enabled, speed: TimerSpeed::from_index(speed_index) }
    }
}

impl FromSpecImpl<u8> for TimerControl {
    open spec fn obeys_from_spec() -> bool {
        true
    }

    open spec fn from_spec(byte: u8) -> TimerControl {
        TimerControl::of_byte(byte)
    }
}

/// Number of period boundaries that a clock crosses when it advances from
/// `past` by `stepped` cycles: the multiples of `period` that lie above
/// `past` and at or below `past + stepped`.
pub open spec fn ticks_between(period: int, past: int, stepped: int) -> int
    recommends
        period > 0,
{
    (past + stepped) / period - past / period
}

/// The ticks that a timer of the given speed counts while the clock advances
/// from `past` by `stepped` cycles, kept in eight bits.
pub open spec fn increments(speed: TimerSpeed, past: usize, stepped: usize) -> u8 {
    (ticks_between(speed.period(), past as int, stepped as int) % 256) as u8
}

/// Counts the timer ticks that fall into the cycles just executed.
///
/// `past` is the running cycle total before those cycles and `stepped` their
/// number. The count is kept in the eight bits of the counters it feeds, so
/// it is taken modulo 256.
pub fn calc_increments(speed: TimerSpeed, past: usize, stepped: usize) -> (ticks: u8)
    ensures
        ticks == increments(speed, past, stepped),
{
    let speed_modulo: usize = usize::from(speed);
    let modulo_past: usize = past % speed_modulo;
    let modulo_now: usize = (modulo_past + stepped % speed_modulo) % speed_modulo;
    let whole: usize = stepped / speed_modulo;
    let crossed: usize = if modulo_now < modulo_past { 1 } else { 0 };
    proof {
        lemma_ticks_by_remainders(speed_modulo as int, past as int, stepped as int);
        assert(whole <= stepped / 4) by (nonlinear_arith)
            requires
                whole == stepped / speed_modulo,
                speed_modulo >= 4,
        ;
    }
    ((whole + crossed) % 256) as u8
}

/// Splitting a stretch of cycles in two neither loses nor repeats a boundary:
/// the ticks of the two parts add up to the ticks of the whole.
pub proof fn lemma_ticks_add_up(period: int, past: int, first: int, second: int)
    requires
        period > 0,
    ensures
        ticks_between(period, past, first) + ticks_between(period, past + first, second)
            == ticks_between(period, past, first + second),
{
}

/// The boundaries crossed are the whole periods stepped over, and one more
/// exactly when the remainders of the start and of the step together reach a
/// full period, which is when the clock's remainder ends below where it began.
pub proof fn lemma_ticks_by_remainders(period: int, past: int, stepped: int)
    requires
        period > 0,
        past >= 0,
        stepped >= 0,
    ensures
        ticks_between(period, past, stepped) == stepped / period + (if (past % period + stepped
            % period) % period < past % period {
            1int
        } else {
            0int
        }),
        ticks_between(period, past, stepped) == (past % period + stepped) / period,
{
    let a = past / period;
    let r = past % period;
    let b = stepped / period;
    let s = stepped % period;
    assert(past == period * a + r && stepped == period * b + s) by (nonlinear_arith)
        requires
            period > 0,
            a == past / period,
            r == past % period,
            b == stepped / period,
            s == stepped % period,
    ;
    assert(0 <= r < period && 0 <= s < period);
    if r + s < period {
        assert((past + stepped) / period == a + b && (r + stepped) / period == b && (r + s)
            % period == r + s) by (nonlinear_arith)
            requires
                period > 0,
                past == period * a + r,
                stepped == period * b + s,
                0 <= r,
                0 <= s,
                r + s < period,
        ;
    } else {
        assert((past + stepped) / period == a + b + 1 && (r + stepped) / period == b + 1 && (r + s)
            % period == r + s - period) by (nonlinear_arith)
            requires
                period > 0,
                past == period * a + r,
                stepped == period * b + s,
                r < period,
                s < period,
                r + s >= period,
        ;
    }
}

} // verus!
