//! The Wukong "buzzer": a small magnetic speaker on the bottom of the board,
//! driven by a square wave from a PWM unit.
//!
//! A note is one burst of the PWM sequence, repeated a number of loops that
//! covers the note's duration. [`WuKongBuzzer`] works out the PWM settings of
//! the burst from the waveform period, and then follows the hardware's
//! completion flag: a note is over only once the flag has been seen.

use vstd::prelude::*;

verus! {

/// Rate of the PWM counter in ticks per second (16 MHz divided by 8).
pub const TICK_FREQUENCY: u32 = 2_000_000;

/// Largest value the PWM counter can count up to.
pub const MAX_PERIOD: u32 = 32767;

/// Largest number of loops the PWM unit can repeat a sequence.
pub const MAX_LOOPS: u64 = 65535;

/// Error in planning a note.
#[derive(Debug, Clone, Copy, PartialEq, Eq)]
pub enum Error {
    /// The waveform period, in ticks, is 0 or past what the PWM counter
    /// can count.
    PeriodOutOfRange(u32),
    /// The note's duration comes to a number of loops that the PWM unit
    /// cannot repeat: none at all, or more than [`MAX_LOOPS`].
    LoopCountOutOfRange(u64),
}

/// Number of loops of a waveform of `period` ticks that plays for
/// `duration_ms` milliseconds with a counter of `tick_frequency` ticks per
/// second, rounded down. The waveform toggles twice per loop.
pub open spec fn loop_count_spec(tick_frequency: nat, duration_ms: nat, period: nat) -> nat
    recommends
        period > 0,
{
    duration_ms * tick_frequency / (2000 * period)
}

/// Number of loops of a waveform of `period` ticks that plays for
/// `duration_ms` milliseconds with a counter of `tick_frequency` ticks per
/// second, rounded down.
pub fn loop_count(tick_frequency: u32, duration_ms: u32, period: u32) -> (r: u64)
    requires
        period > 0,
    ensures
        r == loop_count_spec(tick_frequency as nat, duration_ms as nat, period as nat),
{
    let d = duration_ms as u64;
    let t = tick_frequency as u64;
    let p = period as u64;
    assert(d * t <= 0xffff_ffffu64 * 0xffff_ffffu64) by (nonlinear_arith)
        requires
            d <= 0xffff_ffffu64,
            t <= 0xffff_ffffu64,
    ;
    d * t / (2000 * p)
}

/// PWM settings of one note.
#[derive(Debug, Clone, Copy, PartialEq, Eq)]
pub struct TonePlan {
    /// Value the PWM counter counts up to: the waveform period in ticks.
    pub max_duty: u16,
    /// Duty value of the square wave: half the period.
    pub duty: u16,
    /// Number of loops of the sequence.
    pub loops: u16,
}

/// What [`WuKongBuzzer::play_note`] plans for a waveform of `period` ticks
/// held `duration_ms` milliseconds.
pub open spec fn tone_plan(period: u32, duration_ms: u32) -> Result<TonePlan, Error> {
    if period < 1 || period > MAX_PERIOD {
        Err(Error::PeriodOutOfRange(period))
    } else {
        let loops = loop_count_spec(TICK_FREQUENCY as nat, duration_ms as nat, period as nat);
        if loops < 1 || loops > MAX_LOOPS {
            Err(Error::LoopCountOutOfRange(loops as u64))
        } else {
            Ok(TonePlan { max_duty: period as u16, duty: (period / 2) as u16, loops: loops as u16 })
        }
    }
}

/// Wukong "buzzer" speaker driver state: idle, or playing a note.
pub struct WuKongBuzzer {
    playing: bool,
}

impl WuKongBuzzer {
    /// Whether a note is playing.
    pub closed spec fn playing(&self) -> bool {
        self.playing
    }

    /// A buzzer with no note playing.
    pub fn new() -> (r: Self)
        ensures
            !r.playing(),
    {
        WuKongBuzzer { playing: false }
    }

    /// Whether a note is playing.
    pub fn is_playing(&self) -> (r: bool)
        ensures
            r == self.playing(),
    {
        self.playing
    }

    /// Start a note: a square wave of `period` ticks held for `duration_ms`
    /// milliseconds. Returns the PWM settings to load and start; the caller
    /// then polls the loops-done flag with [`WuKongBuzzer::poll`] until the
    /// note is over.
    ///
    /// # Errors
    ///
    /// Returns an error, and stays idle, if the period or the loop count is
    /// out of the PWM unit's range.
    pub fn play_note(&mut self, period: u32, duration_ms: u32) -> (r: Result<TonePlan, Error>)
        requires
            !old(self).playing(),
        ensures
            r == tone_plan(period, duration_ms),
            final(self).playing() == r is Ok,
    {
        if period < 1 || period > MAX_PERIOD {
            return Err(Error::PeriodOutOfRange(period));
        }
        let loops = loop_count(TICK_FREQUENCY, duration_ms, period);
        if loops < 1 || loops > MAX_LOOPS {
            return Err(Error::LoopCountOutOfRange(loops));
        }
        self.playing = true;
        Ok(TonePlan { max_duty: period as u16, duty: (period / 2) as u16, loops: loops as u16 })
    }

    /// Take one reading of the loops-done flag of the playing note. Returns
    /// whether the note is over, which it is exactly when the flag is set.
    pub fn poll(&mut self, loops_done: bool) -> (finished: bool)
        requires
            old(self).playing(),
        ensures
            finished == loops_done,
            final(self).playing() == !loops_done,
    {
        if loops_done {
            self.playing = false;
        }
        loops_done
    }
}

} // verus!
