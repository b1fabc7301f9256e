use vstd::prelude::*;
use core::time::Duration;
use crate::cannon_plug::AnimationConfig;
use crate::custscene_public::{CutSceneTimers, other_timers_kept, step_has_timer, timer_of, timer_flags_clear};
use crate::cutscene_plug::reset_cutscene_timer;
use crate::timer::{
    timer_tick, timer_reset, timer_duration_nanos, timer_finished, once_running, ticked_once, ticked_finished,
    restarted_from,
};

verus! {

/// What a frame of the fireworks animation does to its sprite: wait, show
/// the given frame, or hold the current frame and stop the animations.
#[derive(Clone, Copy, Debug, PartialEq, Eq, Structural)]
pub enum FrameStep {
    Wait,
    Advance(usize),
    Hold,
}

/// Once the frame timer is finished and the sprite has a frame, the next
/// frame is shown, unless it would reach the last frame, where the animation
/// holds.
pub open spec fn fireworks_frame_spec(finished: bool, last_index: usize, atlas_index: Option<usize>) -> FrameStep {
    match atlas_index {
        Some(index) => if finished {
            if index + 1 >= last_index {
                FrameStep::Hold
            } else {
                FrameStep::Advance((index + 1) as usize)
            }
        } else {
            FrameStep::Wait
        },
        None => FrameStep::Wait,
    }
}

/// One frame of the fireworks sprite-sheet animation: the frame timer
/// advances by `delta`; whether it is finished comes from the timer, and the
/// step is what `fireworks_frame_spec` says for it; for a running one-shot
/// timer, that is its state after running `delta` more. The timer restarts
/// when a new frame is shown.
pub fn execute_fireworks_animations(
    animation_config: &mut AnimationConfig,
    delta: Duration,
    atlas_index: Option<usize>,
) -> (step: FrameStep)
    ensures
        exists|finished: bool| step == fireworks_frame_spec(finished, old(animation_config).last_index, atlas_index)
            && (step is Advance ==> timer_flags_clear(final(animation_config).frame_timer))
            && (!(step is Advance) ==> timer_finished(final(animation_config).frame_timer) == finished),
        once_running(old(animation_config).frame_timer) ==> {
            let before = old(animation_config).frame_timer;
            let after = final(animation_config).frame_timer;
            &&& step == fireworks_frame_spec(ticked_finished(before, delta), old(animation_config).last_index, atlas_index)
            &&& step is Advance ==> restarted_from(before, after)
            &&& !(step is Advance) ==> ticked_once(before, after, delta)
        },
        once_running(old(animation_config).frame_timer) && !ticked_finished(old(animation_config).frame_timer, delta)
            ==> step == FrameStep::Wait,
        step is Wait && atlas_index is Some ==> !timer_finished(final(animation_config).frame_timer),
        step is Hold ==> timer_finished(final(animation_config).frame_timer),
        atlas_index is None ==> step == FrameStep::Wait,
        step matches FrameStep::Advance(i) ==> (atlas_index matches Some(index) && i == index + 1
            && i < old(animation_config).last_index),
        step is Hold ==> (atlas_index matches Some(index) && index + 1 >= old(animation_config).last_index),
        final(animation_config).first_index == old(animation_config).first_index,
        final(animation_config).last_index == old(animation_config).last_index,
        final(animation_config).fps == old(animation_config).fps,
{
    let status = timer_tick(&mut animation_config.frame_timer, delta);
    let step = match atlas_index {
        Some(index) => if status.finished {
            if animation_config.last_index == 0 || index >= animation_config.last_index - 1 {
                FrameStep::Hold
            } else {
                timer_reset(&mut animation_config.frame_timer);
                FrameStep::Advance(index + 1)
            }
        } else {
            FrameStep::Wait
        },
        None => FrameStep::Wait,
    };
    assert(step == fireworks_frame_spec(status.finished, animation_config.last_index, atlas_index));
    step
}

/// The fireworks animation only climbs, one frame at a time, and never shows
/// its last frame.
pub proof fn lemma_fireworks_frames_stay_before_last(finished: bool, last_index: usize, index: usize)
    requires
        index < usize::MAX,
    ensures
        fireworks_frame_spec(finished, last_index, Some(index)) matches FrameStep::Advance(i)
            ==> i == index + 1 && i < last_index,
{
}

/// A frame whose timer is not finished never changes the sprite; a finished
/// one shows the next frame, or holds once the next would reach the last.
pub proof fn lemma_fireworks_frame_needs_finished_timer(last_index: usize, atlas_index: Option<usize>)
    ensures
        fireworks_frame_spec(false, last_index, atlas_index) == FrameStep::Wait,
        fireworks_frame_spec(true, last_index, atlas_index) is Advance ==> (atlas_index matches Some(index) && index + 1
            < last_index),
        forall|index: usize| atlas_index == Some(index) && index + 1 < last_index ==> fireworks_frame_spec(true, last_index, atlas_index)
            == FrameStep::Advance((index + 1) as usize),
        forall|index: usize| atlas_index == Some(index) && index + 1 >= last_index ==> fireworks_frame_spec(true, last_index, atlas_index)
            == FrameStep::Hold,
        atlas_index is None ==> fireworks_frame_spec(true, last_index, atlas_index) == FrameStep::Wait,
{
}

/// Entering a cutscene on a phone: the step's timer and the fireworks frame
/// timer restart, and the animation starts from its first picture, index 0.
pub fn on_in_cutscene(cutscene_timers: &mut CutSceneTimers, fireworks: &mut AnimationConfig) -> (frame: usize)
    ensures
        frame == 0,
        step_has_timer(old(cutscene_timers).cur_state) ==> timer_flags_clear(
            timer_of(*final(cutscene_timers), old(cutscene_timers).cur_state),
        ),
        !step_has_timer(old(cutscene_timers).cur_state) ==> *final(cutscene_timers) == *old(cutscene_timers),
        timer_duration_nanos(timer_of(*final(cutscene_timers), old(cutscene_timers).cur_state))
            == timer_duration_nanos(timer_of(*old(cutscene_timers), old(cutscene_timers).cur_state)),
        timer_flags_clear(final(fireworks).frame_timer),
        restarted_from(old(fireworks).frame_timer, final(fireworks).frame_timer),
        step_has_timer(old(cutscene_timers).cur_state) ==> restarted_from(
            timer_of(*old(cutscene_timers), old(cutscene_timers).cur_state),
            timer_of(*final(cutscene_timers), old(cutscene_timers).cur_state),
        ),
        timer_duration_nanos(final(fireworks).frame_timer) == timer_duration_nanos(old(fireworks).frame_timer),
        other_timers_kept(*old(cutscene_timers), *final(cutscene_timers), old(cutscene_timers).cur_state),
        final(cutscene_timers).cur_state == old(cutscene_timers).cur_state,
        final(fireworks).first_index == old(fireworks).first_index,
        final(fireworks).last_index == old(fireworks).last_index,
        final(fireworks).fps == old(fireworks).fps,
{
    reset_cutscene_timer(cutscene_timers);
    timer_reset(&mut fireworks.frame_timer);
    0
}

}
