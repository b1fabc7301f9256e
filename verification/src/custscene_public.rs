use vstd::prelude::*;
use bevy::time::Timer;
use crate::config::{
    CutsceneStepState, BEFORE_CUTSCENE_MILLIS, IN_CUTSCENE_MILLIS, AFTER_CUTSCENE_MILLIS,
    OVER_CUTSCENE_MILLIS,
};
use crate::timer::{
    duration_from_millis, timer_once, timer_finished, timer_just_finished, timer_duration_nanos,
    timer_elapsed_nanos, once_running,
};

verus! {

/// The timer of each cutscene step, and the step being timed.
pub struct CutSceneTimers {
    pub before_cutscene: Timer,
    pub in_cutscene: Timer,
    pub after_cutscene: Timer,
    pub in_game_over_cutscene: Timer,
    pub cur_state: CutsceneStepState,
}

/// Every step but `NoState` has a timer.
pub open spec fn step_has_timer(step: CutsceneStepState) -> bool {
    step != CutsceneStepState::NoState
}

/// The timer of `step` among `timers`; `NoState` has none, and the
/// end-of-game cutscene's timer stands for it.
pub open spec fn timer_of(timers: CutSceneTimers, step: CutsceneStepState) -> Timer {
    match step {
        CutsceneStepState::BeforeCutscene => timers.before_cutscene,
        CutsceneStepState::InCutscene => timers.in_cutscene,
        CutsceneStepState::AfterCutscene => timers.after_cutscene,
        _ => timers.in_game_over_cutscene,
    }
}

/// `after` holds the timers of `before`, but for the timer of `step`.
pub open spec fn other_timers_kept(before: CutSceneTimers, after: CutSceneTimers, step: CutsceneStepState) -> bool {
    &&& step != CutsceneStepState::BeforeCutscene ==> after.before_cutscene == before.before_cutscene
    &&& step != CutsceneStepState::InCutscene ==> after.in_cutscene == before.in_cutscene
    &&& step != CutsceneStepState::AfterCutscene ==> after.after_cutscene == before.after_cutscene
    &&& step != CutsceneStepState::InGameOverCutscene ==> after.in_game_over_cutscene == before.in_game_over_cutscene
}

/// The timer is neither finished nor just finished; how far it has run is
/// not part of this (see `restarted_from` for a full restart).
pub open spec fn timer_flags_clear(timer: Timer) -> bool {
    !timer_finished(timer) && !timer_just_finished(timer)
}

/// A fresh one-shot timer: running, nothing elapsed, not finished.
pub open spec fn timer_fresh(timer: Timer) -> bool {
    once_running(timer) && timer_elapsed_nanos(timer) == 0 && timer_flags_clear(timer)
}

/// Every timer of `timers` is a fresh one-shot timer.
pub open spec fn timers_fresh(timers: CutSceneTimers) -> bool {
    &&& timer_fresh(timers.before_cutscene)
    &&& timer_fresh(timers.in_cutscene)
    &&& timer_fresh(timers.after_cutscene)
    &&& timer_fresh(timers.in_game_over_cutscene)
}

/// No timer of `timers` is finished or just finished.
pub open spec fn timers_flags_clear(timers: CutSceneTimers) -> bool {
    &&& timer_flags_clear(timers.before_cutscene)
    &&& timer_flags_clear(timers.in_cutscene)
    &&& timer_flags_clear(timers.after_cutscene)
    &&& timer_flags_clear(timers.in_game_over_cutscene)
}

impl CutSceneTimers {
    /// One-shot timers of 1.5 s, 4 s, 0.5 s and 0.2 s for the steps before,
    /// during and after a cutscene and during the end-of-game cutscene; no
    /// step is timed yet.
    pub fn default() -> (t: CutSceneTimers)
        ensures
            t.cur_state == CutsceneStepState::NoState,
            timer_duration_nanos(t.before_cutscene) == BEFORE_CUTSCENE_MILLIS * 1_000_000,
            timer_duration_nanos(t.in_cutscene) == IN_CUTSCENE_MILLIS * 1_000_000,
            timer_duration_nanos(t.after_cutscene) == AFTER_CUTSCENE_MILLIS * 1_000_000,
            timer_duration_nanos(t.in_game_over_cutscene) == OVER_CUTSCENE_MILLIS * 1_000_000,
            timers_flags_clear(t),
            timers_fresh(t),
    {
        CutSceneTimers {
            before_cutscene: timer_once(duration_from_millis(BEFORE_CUTSCENE_MILLIS)),
            in_cutscene: timer_once(duration_from_millis(IN_CUTSCENE_MILLIS)),
            after_cutscene: timer_once(duration_from_millis(AFTER_CUTSCENE_MILLIS)),
            in_game_over_cutscene: timer_once(duration_from_millis(OVER_CUTSCENE_MILLIS)),
            cur_state: CutsceneStepState::NoState,
        }
    }

    /// The timer of the step being timed, if that step has one.
    pub fn get_cur_timer(&mut self) -> (timer: Option<&mut Timer>)
        ensures
            timer is Some <==> step_has_timer(old(self).cur_state),
            timer matches Some(t) ==> *t == timer_of(*old(self), old(self).cur_state),
            timer matches Some(t) ==> timer_of(*final(self), old(self).cur_state) == *final(t),
            timer is None ==> *final(self) == *old(self),
            final(self).cur_state == old(self).cur_state,
            other_timers_kept(*old(self), *final(self), old(self).cur_state),
    {
        match self.cur_state {
            CutsceneStepState::BeforeCutscene => Some(&mut self.before_cutscene),
            CutsceneStepState::InCutscene => Some(&mut self.in_cutscene),
            CutsceneStepState::AfterCutscene => Some(&mut self.after_cutscene),
            CutsceneStepState::InGameOverCutscene => Some(&mut self.in_game_over_cutscene),
            CutsceneStepState::NoState => None,
        }
    }
}

/// The steps of the cutscene between two levels, and the step reached.
pub struct CutSceneStateDef {
    pub state: [CutsceneStepState; 3],
    pub cur_index: usize,
}

/// The steps of a cutscene between levels: before, during, after.
pub open spec fn level_cutscene_steps() -> Seq<CutsceneStepState> {
    seq![CutsceneStepState::BeforeCutscene, CutsceneStepState::InCutscene, CutsceneStepState::AfterCutscene]
}

/// The steps of the end-of-game cutscene: before, fireworks, after.
pub open spec fn game_over_cutscene_steps() -> Seq<CutsceneStepState> {
    seq![CutsceneStepState::BeforeCutscene, CutsceneStepState::InGameOverCutscene, CutsceneStepState::AfterCutscene]
}

impl CutSceneStateDef {
    /// Before, during and after the cutscene, from the first step.
    pub fn default() -> (d: CutSceneStateDef)
        ensures
            d.state@ == level_cutscene_steps(),
            d.cur_index == 0,
    {
        let d = CutSceneStateDef {
            state: [CutsceneStepState::BeforeCutscene, CutsceneStepState::InCutscene, CutsceneStepState::AfterCutscene],
            cur_index: 0,
        };
        assert(d.state@ =~= level_cutscene_steps());
        d
    }
}

/// The steps of the end-of-game cutscene, and the step reached.
pub struct CutSceneGameOverStateDef {
    pub state: [CutsceneStepState; 3],
    pub cur_index: usize,
}

impl CutSceneGameOverStateDef {
    /// Before, during and after the end-of-game fireworks, from the first step.
    pub fn default() -> (d: CutSceneGameOverStateDef)
        ensures
            d.state@ == game_over_cutscene_steps(),
            d.cur_index == 0,
    {
        let d = CutSceneGameOverStateDef {
            state: [CutsceneStepState::BeforeCutscene, CutsceneStepState::InGameOverCutscene, CutsceneStepState::AfterCutscene],
            cur_index: 0,
        };
        assert(d.state@ =~= game_over_cutscene_steps());
        d
    }
}

}
