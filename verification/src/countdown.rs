//! The countdown timer that the simulation runs on.
//!
//! The timer itself is `bevy::time::Timer`. Nothing in this file is proved:
//! each function below calls one method of that type, and its contract is
//! this crate's reading of the method's source.

use bevy::time::Timer;
use bevy::time::TimerMode;
use std::time::Duration;
use vstd::prelude::*;

verus! {

/// `bevy::time::Timer`, taken as it is: nothing of its inside is seen here.
#[verifier::external_type_specification]
#[verifier::external_body]
pub struct ExTimer(Timer);

/// What a timer holds, with times in whole nanoseconds.
pub struct TimerState {
    /// Time counted so far.
    pub elapsed: nat,
    /// Time after which the timer fires.
    pub duration: nat,
    /// Whether the timer starts over after it fires.
    pub repeating: bool,
    /// Whether ticks are ignored.
    pub paused: bool,
    /// Whether the timer fired (for a repeating timer: on the last tick).
    pub finished: bool,
    /// How often the timer fired on the last tick.
    pub times_finished: nat,
}

/// The state of a `bevy::time::Timer`: what its methods `elapsed`, `duration`,
/// `mode`, `paused`, `finished` and `times_finished_this_tick` return.
pub uninterp spec fn timer_state(timer: Timer) -> TimerState;

/// The longest time a `std::time::Duration` holds, in nanoseconds.
pub open spec fn duration_max_ns() -> nat {
    18_446_744_073_709_551_615_999_999_999
}

/// The state after one tick of `delta` nanoseconds of a timer that runs and
/// whose duration is positive.
///
/// A one-shot timer that has fired stays as it is. Otherwise the time is
/// added; once it reaches the duration, a one-shot timer stops at the
/// duration, and a repeating timer keeps what is left over after taking off
/// whole durations, whose number it records in 32 bits.
pub open spec fn ticked(s: TimerState, delta: nat) -> TimerState {
    let total = s.elapsed + delta;
    if !s.repeating && s.finished {
        TimerState { times_finished: 0, ..s }
    } else if total < s.duration {
        TimerState { elapsed: total, finished: false, times_finished: 0, ..s }
    } else if !s.repeating {
        TimerState { elapsed: s.duration, finished: true, times_finished: 1, ..s }
    } else {
        TimerState {
            elapsed: total % s.duration,
            finished: true,
            times_finished: (total / s.duration) % 0x1_0000_0000,
            ..s
        }
    }
}

/// A timer that has counted nothing, runs, and has not fired.
pub open spec fn fresh_timer(duration: nat, repeating: bool) -> TimerState {
    TimerState {
        elapsed: 0,
        duration,
        repeating,
        paused: false,
        finished: false,
        times_finished: 0,
    }
}

/// Calls `Timer::new`, with `TimerMode::Repeating` or `TimerMode::Once` for
/// the mode: a fresh timer of the given duration.
#[verifier::external_body]
pub(crate) fn timer_new(duration_ns: u64, repeating: bool) -> (timer: Timer)
    ensures
        timer_state(timer) == fresh_timer(duration_ns as nat, repeating),
{
    Timer::new(
        Duration::from_nanos(duration_ns),
        if repeating { TimerMode::Repeating } else { TimerMode::Once },
    )
}

/// Calls `Timer::tick`. The sum of the elapsed time and `delta_ns` must fit a
/// `Duration`, or the addition inside panics. A paused timer, and one of no
/// duration or of more nanoseconds than a `u64` holds, are left out: `ticked`
/// does not say what becomes of them.
#[verifier::external_body]
pub(crate) fn timer_tick(timer: &mut Timer, delta_ns: u64)
    requires
        !timer_state(*old(timer)).paused,
        0 < timer_state(*old(timer)).duration <= u64::MAX,
        timer_state(*old(timer)).elapsed + delta_ns <= duration_max_ns(),
    ensures
        timer_state(*final(timer)) == ticked(timer_state(*old(timer)), delta_ns as nat),
    no_unwind
{
    timer.tick(Duration::from_nanos(delta_ns));
}

/// Calls `Timer::finished`.
#[verifier::external_body]
pub(crate) fn timer_finished(timer: &Timer) -> (finished: bool)
    ensures
        finished == timer_state(*timer).finished,
{
    timer.finished()
}

/// Calls `Timer::just_finished`.
#[verifier::external_body]
pub(crate) fn timer_just_finished(timer: &Timer) -> (fired: bool)
    ensures
        fired == (timer_state(*timer).times_finished > 0),
{
    timer.just_finished()
}

/// Calls `Timer::pause`.
#[verifier::external_body]
pub(crate) fn timer_pause(timer: &mut Timer)
    ensures
        timer_state(*final(timer)) == (TimerState { paused: true, ..timer_state(*old(timer)) }),
    no_unwind
{
    timer.pause();
}

/// Calls `Timer::unpause`.
#[verifier::external_body]
pub(crate) fn timer_unpause(timer: &mut Timer)
    ensures
        timer_state(*final(timer)) == (TimerState { paused: false, ..timer_state(*old(timer)) }),
    no_unwind
{
    timer.unpause();
}

/// Calls `Timer::reset`: nothing counted, not fired; the duration, the mode
/// and the pause stay.
#[verifier::external_body]
pub(crate) fn timer_reset(timer: &mut Timer)
    ensures
        timer_state(*final(timer)) == (TimerState {
            elapsed: 0,
            finished: false,
            times_finished: 0,
            ..timer_state(*old(timer))
        }),
    no_unwind
{
    timer.reset();
}

/// Calls `Timer::set_elapsed`, which overwrites the time counted and nothing
/// else.
#[verifier::external_body]
pub(crate) fn timer_set_elapsed(timer: &mut Timer, elapsed_ns: u64)
    ensures
        timer_state(*final(timer)) == (TimerState {
            elapsed: elapsed_ns as nat,
            ..timer_state(*old(timer))
        }),
    no_unwind
{
    timer.set_elapsed(Duration::from_nanos(elapsed_ns));
}

/// Calls `Timer::paused`.
#[verifier::external_body]
pub(crate) fn timer_paused(timer: &Timer) -> (paused: bool)
    ensures
        paused == timer_state(*timer).paused,
{
    timer.paused()
}

/// Calls `Timer::elapsed` and hands the time on in nanoseconds, which must
/// fit a `u64`.
#[verifier::external_body]
pub(crate) fn timer_elapsed_ns(timer: &Timer) -> (elapsed_ns: u64)
    requires
        timer_state(*timer).elapsed <= u64::MAX,
    ensures
        elapsed_ns == timer_state(*timer).elapsed,
{
    timer.elapsed().as_nanos() as u64
}

} // verus!
