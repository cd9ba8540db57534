//! The engine's timer, as far as the animation relies on it.
//!
//! `bevy::time::Timer` is opaque to the verifier. Each of its getters gets a
//! name that specifications can use, and `tick` and `reset` are described over
//! those names. The declarations in this file are assumed, not proved: they
//! record how the engine's timer behaves.

use bevy::time::{Timer, TimerMode};
use std::time::Duration;
use vstd::prelude::*;

verus! {

/// The engine's timer: a stopwatch together with a duration to reach.
#[verifier::external_type_specification]
#[verifier::external_body]
pub struct ExTimer(Timer);

/// The most nanoseconds a `Duration` holds: `u64::MAX` seconds and
/// 999,999,999 nanoseconds.
pub const MAX_DURATION_NANOS: u128 = 18_446_744_073_709_551_615_999_999_999;

/// The whole nanoseconds in `d`: what `Duration::as_nanos` returns.
pub uninterp spec fn duration_nanos(d: Duration) -> nat;

/// The time `t` has counted, in nanoseconds: what `Timer::elapsed` returns.
pub uninterp spec fn timer_elapsed(t: Timer) -> nat;

/// The time `t` has to reach, in nanoseconds: what `Timer::duration` returns.
pub uninterp spec fn timer_duration(t: Timer) -> nat;

/// What `Timer::finished` returns for `t`.
pub uninterp spec fn timer_finished(t: Timer) -> bool;

/// What `Timer::just_finished` returns for `t`.
pub uninterp spec fn timer_just_finished(t: Timer) -> bool;

/// What `Timer::paused` returns for `t`.
pub uninterp spec fn timer_paused(t: Timer) -> bool;

/// Whether `Timer::mode` returns `TimerMode::Repeating` for `t`.
pub uninterp spec fn timer_repeating(t: Timer) -> bool;

/// Whether a tick moves the clock of `t`: it is not paused and, unless it
/// repeats, it has not finished yet.
pub open spec fn timer_runs(t: Timer) -> bool {
    !timer_paused(t) && (timer_repeating(t) || !timer_finished(t))
}

/// The time on the clock of `t` once `delta` is added to it.
pub open spec fn time_reached(t: Timer, delta: Duration) -> nat {
    timer_elapsed(t) + duration_nanos(delta)
}

/// Whether `t` can take a tick of `delta`: the time that a running timer
/// reaches must be one that a `Duration` holds.
pub open spec fn can_tick(t: Timer, delta: Duration) -> bool {
    timer_runs(t) ==> time_reached(t, delta) <= MAX_DURATION_NANOS
}

/// How often a repeating timer that is due every `due` nanoseconds reports
/// to have finished when its clock reaches `total`: the quotient, kept in 32
/// bits, and `u32::MAX` where `due` is zero.
pub open spec fn laps_counted(total: nat, due: nat) -> nat {
    if due == 0 {
        0xffff_ffff
    } else {
        (total / due) % 0x1_0000_0000
    }
}

/// The time a repeating timer keeps on its clock after it reached `total`:
/// the remainder, kept in 64 bits, and zero where `due` is zero.
pub open spec fn time_carried(total: nat, due: nat) -> nat {
    if due == 0 {
        0
    } else {
        (total % due) % 0x1_0000_0000_0000_0000
    }
}

/// Whether a tick of `delta` makes `t` report that it has just finished.
pub open spec fn timer_fires(t: Timer, delta: Duration) -> bool {
    &&& timer_runs(t)
    &&& time_reached(t, delta) >= timer_duration(t)
    &&& timer_repeating(t) ==> laps_counted(time_reached(t, delta), timer_duration(t)) > 0
}

/// `after` is `before` with a tick of `delta` taken.
///
/// Duration, mode and pause are kept. A timer that does not run keeps its
/// time and has not just finished; a repeating one is then not finished
/// either. A running timer that stays short of its duration holds the time
/// reached. One that reaches it is finished: a timer that runs once then
/// stops at its duration and has just finished, a repeating one carries the
/// remainder on and has just finished as often as `laps_counted` says.
pub open spec fn ticked(before: Timer, delta: Duration, after: Timer) -> bool {
    let total = time_reached(before, delta);
    let due = timer_duration(before);
    &&& timer_duration(after) == due
    &&& timer_repeating(after) == timer_repeating(before)
    &&& timer_paused(after) == timer_paused(before)
    &&& timer_just_finished(after) == timer_fires(before, delta)
    &&& timer_finished(after) == if timer_runs(before) {
        total >= due
    } else {
        !timer_repeating(before) && timer_finished(before)
    }
    &&& timer_elapsed(after) == if !timer_runs(before) {
        timer_elapsed(before)
    } else if total < due {
        total
    } else if timer_repeating(before) {
        time_carried(total, due)
    } else {
        due
    }
}

/// `after` is `before` set back to its start: no time counted, not finished,
/// with the duration, mode and pause that `before` has.
pub open spec fn rewound(before: Timer, after: Timer) -> bool {
    &&& timer_elapsed(after) == 0
    &&& !timer_finished(after)
    &&& !timer_just_finished(after)
    &&& timer_duration(after) == timer_duration(before)
    &&& timer_repeating(after) == timer_repeating(before)
    &&& timer_paused(after) == timer_paused(before)
}

/// `Duration::as_nanos` returns the duration in whole nanoseconds.
pub assume_specification[ Duration::as_nanos ](d: &Duration) -> (nanos: u128)
    ensures
        nanos == duration_nanos(*d),
;

/// `Timer::elapsed` returns the time counted so far.
pub assume_specification[ Timer::elapsed ](timer: &Timer) -> (elapsed: Duration)
    ensures
        duration_nanos(elapsed) == timer_elapsed(*timer),
;

/// `Timer::duration` returns the time the timer has to reach.
pub assume_specification[ Timer::duration ](timer: &Timer) -> (duration: Duration)
    ensures
        duration_nanos(duration) == timer_duration(*timer),
;

/// `Timer::finished` reads the timer's flag.
pub assume_specification[ Timer::finished ](timer: &Timer) -> (finished: bool)
    ensures
        finished == timer_finished(*timer),
;

/// `Timer::just_finished` tells whether the last tick finished the timer.
pub assume_specification[ Timer::just_finished ](timer: &Timer) -> (fired: bool)
    ensures
        fired == timer_just_finished(*timer),
;

/// `Timer::paused` reads the pause of the timer's stopwatch.
pub assume_specification[ Timer::paused ](timer: &Timer) -> (paused: bool)
    ensures
        paused == timer_paused(*timer),
;

/// `Timer::mode`, with its two variants told apart.
#[verifier::external_body]
pub(crate) fn timer_repeats(timer: &Timer) -> (repeats: bool)
    ensures
        repeats == timer_repeating(*timer),
{
    match timer.mode() {
        TimerMode::Once => false,
        TimerMode::Repeating => true,
    }
}

/// `Timer::tick` advances the timer by `delta` as `ticked` says, and returns
/// the timer. It adds `delta` to the clock of a running timer with
/// `Duration`'s `+=`, which panics when the sum cannot be held: `can_tick`
/// leaves that out.
pub assume_specification[ Timer::tick ](timer: &mut Timer, delta: Duration) -> (same: &Timer)
    requires
        can_tick(*old(timer), delta),
    ensures
        ticked(*old(timer), delta, *final(timer)),
        *same == *final(timer),
;

/// `Timer::reset` sets the clock to zero and clears both flags; the pause
/// stays as it is.
pub assume_specification[ Timer::reset ](timer: &mut Timer)
    ensures
        rewound(*old(timer), *final(timer)),
;

} // verus!
