use vstd::prelude::*;

use bevy::time::Timer;
use core::time::Duration;

verus! {

#[verifier::external_type_specification]
#[verifier::external_body]
pub struct ExTimer(bevy::time::Timer);

/// What a timer reports after an operation: `is_finished` and `just_finished`.
#[derive(Clone, Copy, Debug, PartialEq, Eq, Structural)]
pub struct TimerStatus {
    pub finished: bool,
    pub just_finished: bool,
}

/// What `core::time::Duration::as_nanos` returns for `duration`: its length
/// in nanoseconds.
pub uninterp spec fn duration_nanos(duration: Duration) -> nat;

/// What `bevy::time::Timer::is_finished` returns for `timer`.
pub uninterp spec fn timer_finished(timer: Timer) -> bool;

/// What `bevy::time::Timer::just_finished` returns for `timer`.
pub uninterp spec fn timer_just_finished(timer: Timer) -> bool;

/// What `bevy::time::Timer::duration` returns for `timer`, in nanoseconds:
/// the time after which it finishes.
pub uninterp spec fn timer_duration_nanos(timer: Timer) -> nat;

/// What `bevy::time::Timer::elapsed` returns for `timer`, in nanoseconds:
/// how far it has run.
pub uninterp spec fn timer_elapsed_nanos(timer: Timer) -> nat;

/// Whether `bevy::time::Timer::mode` returns `TimerMode::Repeating` for `timer`.
pub uninterp spec fn timer_repeating(timer: Timer) -> bool;

/// What `bevy::time::Timer::is_paused` returns for `timer`.
pub uninterp spec fn timer_paused(timer: Timer) -> bool;

/// A one-shot timer that is not paused: the only kind the game uses.
pub open spec fn once_running(timer: Timer) -> bool {
    !timer_repeating(timer) && !timer_paused(timer)
}

/// `after` has the duration, mode and pause state of `before`.
pub open spec fn same_setup(before: Timer, after: Timer) -> bool {
    &&& timer_duration_nanos(after) == timer_duration_nanos(before)
    &&& timer_repeating(after) == timer_repeating(before)
    &&& timer_paused(after) == timer_paused(before)
}

/// Whether a one-shot timer is finished once it has run `delta` more: it
/// was finished, or its run reaches its duration.
pub open spec fn ticked_finished(timer: Timer, delta: Duration) -> bool {
    timer_finished(timer) || timer_elapsed_nanos(timer) + duration_nanos(delta) >= timer_duration_nanos(timer)
}

/// How far a one-shot timer has run once it has run `delta` more: a finished
/// timer stays where it is; otherwise the run grows by `delta` and stops at
/// the duration.
pub open spec fn ticked_elapsed(timer: Timer, delta: Duration) -> nat {
    if timer_finished(timer) {
        timer_elapsed_nanos(timer)
    } else if timer_elapsed_nanos(timer) + duration_nanos(delta) >= timer_duration_nanos(timer) {
        timer_duration_nanos(timer)
    } else {
        timer_elapsed_nanos(timer) + duration_nanos(delta)
    }
}

/// `after` is the running one-shot timer `before` ticked by `delta`: it is
/// finished as `ticked_finished` says, it just finished when it was not
/// finished before, and it has run as `ticked_elapsed` says.
pub open spec fn ticked_once(before: Timer, after: Timer, delta: Duration) -> bool {
    &&& same_setup(before, after)
    &&& timer_finished(after) == ticked_finished(before, delta)
    &&& timer_just_finished(after) == (ticked_finished(before, delta) && !timer_finished(before))
    &&& timer_elapsed_nanos(after) == ticked_elapsed(before, delta)
}

/// The length of `Duration::MAX` in nanoseconds, where the stopwatch's
/// saturating add stops.
pub open spec fn duration_max_nanos() -> nat {
    18446744073709551615nat * 1_000_000_000nat + 999_999_999nat
}

/// How far a running timer's stopwatch has run once it has run `delta` more.
pub open spec fn stopwatch_sum(timer: Timer, delta: Duration) -> nat {
    let sum = timer_elapsed_nanos(timer) + duration_nanos(delta);
    if sum > duration_max_nanos() { duration_max_nanos() } else { sum }
}

/// `after` is the running repeating timer `before` ticked by `delta`: it is
/// finished when the run reaches the duration; then the run keeps only what
/// lies past the last whole period (none for a zero duration, cut to 64 bits
/// as `Duration::from_nanos` takes them) and it just finished when the count
/// of whole periods, cut to 32 bits, is not zero (always for a zero duration);
/// otherwise the run grows by `delta`.
pub open spec fn ticked_repeating(before: Timer, after: Timer, delta: Duration) -> bool {
    let sum = stopwatch_sum(before, delta);
    let dur = timer_duration_nanos(before);
    &&& same_setup(before, after)
    &&& timer_finished(after) == (sum >= dur)
    &&& sum < dur ==> timer_elapsed_nanos(after) == sum && !timer_just_finished(after)
    &&& sum >= dur && dur == 0 ==> timer_elapsed_nanos(after) == 0 && timer_just_finished(after)
    &&& sum >= dur && dur > 0 ==> timer_elapsed_nanos(after) == (sum % dur) % 0x1_0000_0000_0000_0000
        && timer_just_finished(after) == ((sum / dur) % 0x1_0000_0000 != 0)
}

/// `after` is the paused timer `before` ticked: nothing runs, it did not just
/// finish, a repeating timer is no longer finished, a one-shot timer keeps
/// its finished flag.
pub open spec fn ticked_paused(before: Timer, after: Timer) -> bool {
    &&& same_setup(before, after)
    &&& timer_elapsed_nanos(after) == timer_elapsed_nanos(before)
    &&& !timer_just_finished(after)
    &&& timer_finished(after) == (!timer_repeating(before) && timer_finished(before))
}

/// `after` is `before` restarted: nothing elapsed, neither finished nor just
/// finished, same duration, mode and pause state.
pub open spec fn restarted_from(before: Timer, after: Timer) -> bool {
    &&& same_setup(before, after)
    &&& !timer_finished(after)
    &&& !timer_just_finished(after)
    &&& timer_elapsed_nanos(after) == 0
}


/// A fresh one-shot timer ticked by `delta` finishes, and just finishes,
/// exactly when `delta` reaches its duration; a frame shorter than the
/// duration leaves it running with `delta` elapsed, and the next frame then
/// finishes it exactly when both frames together reach the duration.
pub proof fn lemma_fresh_timer_ticks(t0: Timer, t1: Timer, t2: Timer, d1: Duration, d2: Duration)
    requires
        once_running(t0),
        timer_elapsed_nanos(t0) == 0,
        !timer_finished(t0),
        ticked_once(t0, t1, d1),
        ticked_once(t1, t2, d2),
    ensures
        timer_finished(t1) == (duration_nanos(d1) >= timer_duration_nanos(t0)),
        timer_just_finished(t1) == timer_finished(t1),
        !timer_finished(t1) ==> timer_elapsed_nanos(t1) == duration_nanos(d1),
        !timer_finished(t1) ==> timer_just_finished(t2) == (duration_nanos(d1) + duration_nanos(d2)
            >= timer_duration_nanos(t0)),
        timer_finished(t1) ==> timer_finished(t2) && !timer_just_finished(t2),
{
}

/// `core::time::Duration::from_millis`: a duration of `millis` milliseconds,
/// that is `millis` million nanoseconds.
#[verifier::external_body]
pub fn duration_from_millis(millis: u64) -> (duration: Duration)
    ensures
        duration_nanos(duration) == millis * 1_000_000,
{
    Duration::from_millis(millis)
}

/// `bevy::time::Timer::new` in `TimerMode::Once`: the timer lasts `duration`,
/// is one-shot, and, as `new` fills the rest from `Default`, is not paused,
/// has run for no time, and is neither finished nor just finished.
#[verifier::external_body]
pub fn timer_once(duration: Duration) -> (timer: Timer)
    ensures
        timer_duration_nanos(timer) == duration_nanos(duration),
        !timer_repeating(timer),
        !timer_paused(timer),
        timer_elapsed_nanos(timer) == 0,
        !timer_finished(timer),
        !timer_just_finished(timer),
{
    Timer::new(duration, bevy::time::TimerMode::Once)
}

/// `bevy::time::Timer::tick`, then its `is_finished` and `just_finished`,
/// which the status reports. `tick` keeps duration, mode and pause state. On
/// a running one-shot timer it does what `ticked_once` says: a finished timer
/// only loses `just_finished`; otherwise the stopwatch adds `delta` (a
/// saturating add, which cannot matter here as the duration is below its
/// limit), the timer is finished when the run reaches the duration, and then
/// just finished with the run set to the duration. A running repeating timer
/// is ticked as `ticked_repeating` says and a paused one as `ticked_paused`
/// says. On every path a positive count of finishes comes with `finished`,
/// so a timer that just finished is finished.
#[verifier::external_body]
pub fn timer_tick(timer: &mut Timer, delta: Duration) -> (status: TimerStatus)
    ensures
        status.finished == timer_finished(*final(timer)),
        status.just_finished == timer_just_finished(*final(timer)),
        status.just_finished ==> status.finished,
        timer_duration_nanos(*final(timer)) == timer_duration_nanos(*old(timer)),
        timer_repeating(*final(timer)) == timer_repeating(*old(timer)),
        timer_paused(*final(timer)) == timer_paused(*old(timer)),
        once_running(*old(timer)) ==> ticked_once(*old(timer), *final(timer), delta),
        timer_repeating(*old(timer)) && !timer_paused(*old(timer)) ==> ticked_repeating(
            *old(timer),
            *final(timer),
            delta,
        ),
        timer_paused(*old(timer)) ==> ticked_paused(*old(timer), *final(timer)),
{
    timer.tick(delta);
    TimerStatus { finished: timer.is_finished(), just_finished: timer.just_finished() }
}

/// `bevy::time::Timer::reset`, then its `is_finished` and `just_finished`:
/// `reset` sets the stopwatch back to zero and clears both the finished flag
/// and the count of finishes of the tick, keeping duration, mode and pause
/// state.
#[verifier::external_body]
pub fn timer_reset(timer: &mut Timer) -> (status: TimerStatus)
    ensures
        !status.finished,
        !status.just_finished,
        timer_duration_nanos(*final(timer)) == timer_duration_nanos(*old(timer)),
        timer_repeating(*final(timer)) == timer_repeating(*old(timer)),
        timer_paused(*final(timer)) == timer_paused(*old(timer)),
        timer_elapsed_nanos(*final(timer)) == 0,
        !timer_finished(*final(timer)),
        !timer_just_finished(*final(timer)),
{
    timer.reset();
    TimerStatus { finished: timer.is_finished(), just_finished: timer.just_finished() }
}

}
