//! Conversion of hardware counter readings into logical ticks.
//!
//! The hardware counter is 16 bits wide and is reloaded with
//! `COUNTER_MODULUS - overflow_amount` on every overflow, so one overflow
//! period lasts `overflow_amount` hardware ticks. Two hardware ticks make one
//! logical tick.

use vstd::arithmetic::div_mod::{
    lemma_div_is_ordered, lemma_div_pos_is_pos, lemma_fundamental_div_mod, lemma_mod_pos_bound,
};
use vstd::prelude::*;

verus! {

/// Number of distinct values of the hardware counter.
pub const COUNTER_MODULUS: u32 = 65536;

/// Hardware ticks that make up one logical tick.
pub const HARDWARE_TICKS_PER_LOGICAL_TICK: u64 = 2;

/// Default overflow period: 64 hardware ticks, about one millisecond.
pub const DEFAULT_TIMER_OVERFLOW_AMOUNT: u16 = 64;

/// Ticks from counter value `from` forward to counter value `to`, modulo the
/// counter's width.
pub open spec fn counter_distance(from: int, to: int) -> int {
    (to - from) % (COUNTER_MODULUS as int)
}

/// The counter value at which every overflow period begins.
pub open spec fn overflow_start(overflow_amount: int) -> int {
    COUNTER_MODULUS as int - overflow_amount
}

/// Hardware ticks elapsed since start, given the completed overflow periods,
/// the live counter, the counter captured at start and the period length.
pub open spec fn hardware_ticks(period: u32, counter: u16, initial: u32, overflow_amount: u32) -> int {
    if period == 0 {
        counter_distance(initial as int, counter as int)
    } else {
        period * overflow_amount + counter_distance(overflow_start(overflow_amount as int), counter as int)
    }
}

/// Logical ticks elapsed since start: the hardware ticks, rounded down.
pub open spec fn logical_ticks(period: u32, counter: u16, initial: u32, overflow_amount: u32) -> int {
    hardware_ticks(period, counter, initial, overflow_amount) / (HARDWARE_TICKS_PER_LOGICAL_TICK as int)
}

/// Converts a reading of the overflow count and the hardware counter into
/// logical ticks since start.
pub fn calc_now(period: u32, counter: u16, initial_timer_value: u32, timer_overflow_amount: u32) -> (r: u64)
    requires
        initial_timer_value < COUNTER_MODULUS,
        timer_overflow_amount <= COUNTER_MODULUS,
    ensures
        r == logical_ticks(period, counter, initial_timer_value, timer_overflow_amount),
{
    let overflow_start: u32 = COUNTER_MODULUS - timer_overflow_amount;
    let hardware_ticks_elapsed: u64 = if period == 0 {
        let initial: u16 = initial_timer_value as u16;
        if counter >= initial {
            (counter - initial) as u64
        } else {
            ((COUNTER_MODULUS - initial_timer_value) + counter as u32) as u64
        }
    } else {
        assert(period * timer_overflow_amount <= 0xffff_ffff * 65536) by (nonlinear_arith)
            requires
                period <= 0xffff_ffff,
                timer_overflow_amount <= 65536,
        ;
        let ticks_from_completed_periods: u64 = period as u64 * timer_overflow_amount as u64;
        let start: u16 = #[verifier::truncate] (overflow_start as u16);
        assert(overflow_start == 65536 ==> start == 0) by (bit_vector)
            requires
                start == overflow_start as u16,
        ;
        let ticks_in_current_period: u64 = if counter >= start {
            (counter - start) as u64
        } else {
            ((COUNTER_MODULUS - overflow_start) + counter as u32) as u64
        };
        ticks_from_completed_periods + ticks_in_current_period
    };
    assert(hardware_ticks_elapsed >> 1 == hardware_ticks_elapsed / 2) by (bit_vector);
    hardware_ticks_elapsed >> 1
}

/// Overflow interrupts that have fired `t` hardware ticks after start, when
/// the counter read `initial` at start and a period lasts `overflow_amount`
/// ticks.
pub open spec fn periods_at(initial: int, overflow_amount: int, t: int) -> int {
    (initial - overflow_start(overflow_amount) + t) / overflow_amount
}

/// The counter value `t` hardware ticks after start: it climbs from `initial`
/// and is reloaded with the period's start value on each overflow.
pub open spec fn counter_at(initial: int, overflow_amount: int, t: int) -> int {
    overflow_start(overflow_amount) + (initial - overflow_start(overflow_amount) + t) % overflow_amount
}

/// The hardware model applies `t` ticks after start: a period of 1 to 65536
/// ticks, a counter captured within a period, and a period count that has not
/// yet wrapped around its 32 bits.
pub open spec fn reading_fits(initial: u32, overflow_amount: u32, t: int) -> bool {
    &&& 1 <= overflow_amount <= COUNTER_MODULUS
    &&& overflow_start(overflow_amount as int) <= initial < COUNTER_MODULUS
    &&& 0 <= t
    &&& periods_at(initial as int, overflow_amount as int, t) <= u32::MAX
}

/// Logical ticks computed from the hardware's reading `t` ticks after start.
pub open spec fn logical_ticks_at(initial: u32, overflow_amount: u32, t: int) -> int {
    logical_ticks(
        periods_at(initial as int, overflow_amount as int, t) as u32,
        counter_at(initial as int, overflow_amount as int, t) as u16,
        initial,
        overflow_amount,
    )
}

/// Before the first overflow the computed hardware ticks are exactly the
/// ticks elapsed; afterwards they are ahead by the distance from the period
/// start to the counter captured at start.
proof fn lemma_hardware_ticks_at(initial: u32, overflow_amount: u32, t: int)
    requires
        reading_fits(initial, overflow_amount, t),
    ensures
        hardware_ticks(
            periods_at(initial as int, overflow_amount as int, t) as u32,
            counter_at(initial as int, overflow_amount as int, t) as u16,
            initial,
            overflow_amount,
        ) == if periods_at(initial as int, overflow_amount as int, t) == 0 {
            t
        } else {
            t + initial - overflow_start(overflow_amount as int)
        },
{
    let a = overflow_amount as int;
    let s = initial - overflow_start(a) + t;
    let p = periods_at(initial as int, a, t);
    let c = counter_at(initial as int, a, t);
    lemma_fundamental_div_mod(s, a);
    lemma_mod_pos_bound(s, a);
    lemma_div_pos_is_pos(s, a);
    assert(p == s / a);
    assert(c == overflow_start(a) + s % a);
    assert(0 <= c < 65536);
    if p == 0 {
        assert(s % a == s) by (nonlinear_arith)
            requires
                s == a * (s / a) + s % a,
                s / a == 0,
        ;
        assert(c == initial + t);
        assert(0 <= t < 65536);
        assert(counter_distance(initial as int, c) == t);
    } else {
        assert(p * a + s % a == s) by (nonlinear_arith)
            requires
                s == a * (s / a) + s % a,
                p == s / a,
        ;
        assert(counter_distance(overflow_start(a), c) == s % a);
    }
}

/// Logical time never goes backwards: a later reading of the running hardware
/// gives at least as many logical ticks as an earlier one.
pub proof fn lemma_calc_now_monotonic(initial: u32, overflow_amount: u32, t1: int, t2: int)
    requires
        reading_fits(initial, overflow_amount, t1),
        reading_fits(initial, overflow_amount, t2),
        t1 <= t2,
    ensures
        logical_ticks_at(initial, overflow_amount, t1) <= logical_ticks_at(initial, overflow_amount, t2),
{
    lemma_hardware_ticks_at(initial, overflow_amount, t1);
    lemma_hardware_ticks_at(initial, overflow_amount, t2);
    let h1 = hardware_ticks(
        periods_at(initial as int, overflow_amount as int, t1) as u32,
        counter_at(initial as int, overflow_amount as int, t1) as u16,
        initial,
        overflow_amount,
    );
    let h2 = hardware_ticks(
        periods_at(initial as int, overflow_amount as int, t2) as u32,
        counter_at(initial as int, overflow_amount as int, t2) as u16,
        initial,
        overflow_amount,
    );
    let o = initial - overflow_start(overflow_amount as int);
    lemma_div_is_ordered(o + t1, o + t2, overflow_amount as int);
    assert(h1 <= h2);
    assert(h1 / 2 <= h2 / 2) by (nonlinear_arith)
        requires
            h1 <= h2,
    ;
}

} // verus!
