//! Configuration chosen at start-up.

use vstd::prelude::*;

use crate::clock::DEFAULT_TIMER_OVERFLOW_AMOUNT;

verus! {

/// The four 16-bit hardware timers. Timers 0 and 1 are often taken by the
/// sound system, so Timer 2 is the default for timekeeping.
#[derive(Debug, Clone, Copy, PartialEq, Eq, Structural)]
pub enum TimerNumber {
    /// Timer 0, often used by the sound system.
    Timer0,
    /// Timer 1, often used by the sound system.
    Timer1,
    /// Timer 2, the default.
    Timer2,
    /// Timer 3.
    Timer3,
}

/// Settings of the hardware timer that keeps time.
///
/// At 65.536 kHz an overflow amount of 4 gives about 61 us per check, 16 about
/// 244 us, 64 about 1 ms (the default), 256 about 4 ms and 1024 about 16 ms:
/// lower means finer wake-up resolution and more interrupts.
#[derive(Debug, Clone)]
pub struct TimerConfig {
    /// Which timer to use.
    pub timer_number: TimerNumber,
    /// Hardware ticks between two overflow interrupts.
    pub overflow_amount: u16,
}

impl Default for TimerConfig {
    fn default() -> (c: Self)
        ensures
            c.timer_number == TimerNumber::Timer2,
            c.overflow_amount == DEFAULT_TIMER_OVERFLOW_AMOUNT,
    {
        TimerConfig { timer_number: TimerNumber::Timer2, overflow_amount: DEFAULT_TIMER_OVERFLOW_AMOUNT }
    }
}

/// Configuration given at initialisation.
#[derive(Debug, Clone)]
pub struct Config {
    /// Settings of the time-keeping timer.
    pub timer: TimerConfig,
}

impl Default for Config {
    fn default() -> (c: Self)
        ensures
            c.timer.timer_number == TimerNumber::Timer2,
            c.timer.overflow_amount == DEFAULT_TIMER_OVERFLOW_AMOUNT,
    {
        Config { timer: TimerConfig::default() }
    }
}

} // verus!
