//! The 60 Hz decay of the delay and sound timers, driven by timestamps in
//! milliseconds and by nothing else.

use vstd::prelude::*;
use crate::machine::{Machine, TIMER_PERIOD_MS};

verus! {

/// Milliseconds from `last` to `now`; none if `now` is the earlier one.
pub open spec fn elapsed_ms(last: u64, now: u64) -> int {
    if now >= last {
        now - last
    } else {
        0
    }
}

/// Whole timer periods from `last` to `now`.
pub open spec fn elapsed_periods(last: u64, now: u64) -> int {
    elapsed_ms(last, now) / (TIMER_PERIOD_MS as int)
}

/// The timestamp up to which the timers count as decayed once `now` has been
/// taken in: `now` less the part of a period that has not yet counted.
pub open spec fn reference_after(last: u64, now: u64) -> int {
    now - elapsed_ms(last, now) % (TIMER_PERIOD_MS as int)
}

/// A timer after `periods` periods: lower by that many, but never below zero.
pub open spec fn decayed(timer: u8, periods: int) -> int {
    if periods >= timer {
        0
    } else {
        timer - periods
    }
}

/// The machine after its timers have taken in the timestamp `now`: both
/// timers lower by the periods that have passed, everything else but the
/// timer reference as it was.
pub open spec fn timers_after(m: Machine, now: u64) -> Machine {
    Machine {
        dt: decayed(m.dt, elapsed_periods(m.last_tick_time, now)) as u8,
        st: decayed(m.st, elapsed_periods(m.last_tick_time, now)) as u8,
        last_tick_time: reference_after(m.last_tick_time, now) as u64,
        ..m
    }
}

/// Counts the whole timer periods from `last` to `now`.
pub fn periods_between(last: u64, now: u64) -> (periods: u64)
    ensures
        periods == elapsed_periods(last, now),
{
    if now >= last {
        (now - last) / TIMER_PERIOD_MS
    } else {
        0
    }
}

/// Gives the timestamp up to which the timers count as decayed once `now`
/// has been taken in.
pub fn reference_between(last: u64, now: u64) -> (reference: u64)
    ensures
        reference == reference_after(last, now),
        reference <= now,
{
    if now >= last {
        now - (now - last) % TIMER_PERIOD_MS
    } else {
        now
    }
}

/// Lowers a timer by `periods`, stopping at zero.
pub fn decay(timer: u8, periods: u64) -> (left: u8)
    ensures
        left == decayed(timer, periods as int),
        left <= timer,
{
    if periods >= timer as u64 {
        0
    } else {
        timer - (periods as u8)
    }
}

} // verus!
