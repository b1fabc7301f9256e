use vstd::prelude::*;
use core::time::Duration;
use crate::config::{CutsceneStepState, GameConfig, FIREWORKS_BURSTS};
use crate::custscene_public::{
    CutSceneTimers, CutSceneStateDef, CutSceneGameOverStateDef, step_has_timer, other_timers_kept, timer_of,
    timer_flags_clear,
    level_cutscene_steps, game_over_cutscene_steps,
};
use crate::game_state_plug::{
    FireworksStep, fireworks_step, fireworks_spec, fireworks_count_after, fireworks_count_run, lemma_fireworks_sounds,
};
use crate::timer::{
    timer_tick, timer_reset, timer_finished, timer_just_finished, timer_duration_nanos, once_running, ticked_once,
    ticked_finished, restarted_from,
};

verus! {

/// The step that follows the step at `index`: the next one in the list, or,
/// after the last, no step and the list from its start.
pub open spec fn next_cutscene_step(states: Seq<CutsceneStepState>, index: usize) -> (usize, CutsceneStepState) {
    if index + 1 >= states.len() {
        (0usize, CutsceneStepState::NoState)
    } else {
        ((index + 1) as usize, states[index + 1])
    }
}

/// Decides the cutscene step once the current step's timer has been ticked:
/// when the timer just finished, the next step and its index; otherwise
/// nothing changes.
pub fn advance_cutscene_step(
    state: &[CutsceneStepState; 3],
    cur_index: usize,
    just_finished: bool,
) -> (next: Option<(usize, CutsceneStepState)>)
    ensures
        next == (if just_finished {
            Some(next_cutscene_step(state@, cur_index))
        } else {
            None::<(usize, CutsceneStepState)>
        }),
        !just_finished ==> next is None,
        just_finished && cur_index + 1 < 3 ==> next == Some(((cur_index + 1) as usize, state@[cur_index + 1])),
        just_finished && cur_index + 1 >= 3 ==> next == Some((0usize, CutsceneStepState::NoState)),
{
    if just_finished {
        if cur_index >= 2 {
            Some((0, CutsceneStepState::NoState))
        } else {
            let next_index = cur_index + 1;
            Some((next_index, state[next_index]))
        }
    } else {
        None
    }
}

/// The step after one that is not the last is the next entry of the list,
/// at the next index; after the last comes no step, at index 0.
pub proof fn lemma_next_cutscene_step(states: Seq<CutsceneStepState>, index: usize)
    requires
        states.len() <= usize::MAX,
    ensures
        index + 1 < states.len() ==> next_cutscene_step(states, index).0 == index + 1 && next_cutscene_step(
            states,
            index,
        ).1 == states[index + 1],
        index + 1 >= states.len() ==> next_cutscene_step(states, index) == (0usize, CutsceneStepState::NoState),
{
}

/// Ticks the timer of the current step by `delta` and, when it just
/// finished, moves to the next step of `state`.
fn step_cutscene(
    cutscene_timers: &mut CutSceneTimers,
    state: &[CutsceneStepState; 3],
    cur_index: &mut usize,
    delta: Duration,
) -> (next: Option<CutsceneStepState>)
    ensures
        other_timers_kept(*old(cutscene_timers), *final(cutscene_timers), old(cutscene_timers).cur_state),
        !step_has_timer(old(cutscene_timers).cur_state) ==> next is None,
        step_has_timer(old(cutscene_timers).cur_state) && once_running(
            timer_of(*old(cutscene_timers), old(cutscene_timers).cur_state),
        ) ==> ticked_once(
            timer_of(*old(cutscene_timers), old(cutscene_timers).cur_state),
            timer_of(*final(cutscene_timers), old(cutscene_timers).cur_state),
            delta,
        ),
        step_has_timer(old(cutscene_timers).cur_state) ==> (next is Some <==> timer_just_finished(
            timer_of(*final(cutscene_timers), old(cutscene_timers).cur_state),
        )),
        timer_duration_nanos(timer_of(*final(cutscene_timers), old(cutscene_timers).cur_state))
            == timer_duration_nanos(timer_of(*old(cutscene_timers), old(cutscene_timers).cur_state)),
        next is None ==> *final(cur_index) == *old(cur_index)
            && final(cutscene_timers).cur_state == old(cutscene_timers).cur_state,
        next matches Some(s) ==> step_has_timer(old(cutscene_timers).cur_state)
            && (*final(cur_index), s) == next_cutscene_step(state@, *old(cur_index))
            && final(cutscene_timers).cur_state == s,
{
    let status = match cutscene_timers.get_cur_timer() {
        Some(timer) => timer_tick(timer, delta),
        None => {
            return None;
        },
    };
    match advance_cutscene_step(state, *cur_index, status.just_finished) {
        Some((next_index, next_status)) => {
            *cur_index = next_index;
            cutscene_timers.cur_state = next_status;
            Some(next_status)
        },
        None => None,
    }
}

/// One frame of a cutscene between levels: the current step's timer advances
/// by `delta`; when it just finished, the next step of the level cutscene is
/// returned and recorded. Without a timed step nothing happens.
pub fn cutscene_state_system(
    cutscene_timers: &mut CutSceneTimers,
    cutscene_def: &mut CutSceneStateDef,
    delta: Duration,
) -> (next: Option<CutsceneStepState>)
    ensures
        other_timers_kept(*old(cutscene_timers), *final(cutscene_timers), old(cutscene_timers).cur_state),
        final(cutscene_def).state == old(cutscene_def).state,
        !step_has_timer(old(cutscene_timers).cur_state) ==> next is None,
        step_has_timer(old(cutscene_timers).cur_state) && once_running(
            timer_of(*old(cutscene_timers), old(cutscene_timers).cur_state),
        ) ==> ticked_once(
            timer_of(*old(cutscene_timers), old(cutscene_timers).cur_state),
            timer_of(*final(cutscene_timers), old(cutscene_timers).cur_state),
            delta,
        ),
        step_has_timer(old(cutscene_timers).cur_state) ==> (next is Some <==> timer_just_finished(
            timer_of(*final(cutscene_timers), old(cutscene_timers).cur_state),
        )),
        timer_duration_nanos(timer_of(*final(cutscene_timers), old(cutscene_timers).cur_state))
            == timer_duration_nanos(timer_of(*old(cutscene_timers), old(cutscene_timers).cur_state)),
        next is None ==> final(cutscene_def).cur_index == old(cutscene_def).cur_index
            && final(cutscene_timers).cur_state == old(cutscene_timers).cur_state,
        next matches Some(s) ==> step_has_timer(old(cutscene_timers).cur_state)
            && (final(cutscene_def).cur_index, s) == next_cutscene_step(
                old(cutscene_def).state@,
                old(cutscene_def).cur_index,
            )
            && final(cutscene_timers).cur_state == s,
{
    step_cutscene(cutscene_timers, &cutscene_def.state, &mut cutscene_def.cur_index, delta)
}

/// One frame of the end-of-game cutscene, stepped like `cutscene_state_system`
/// through the end-of-game steps.
pub fn game_over_state_system(
    cutscene_timers: &mut CutSceneTimers,
    cutscene_gameover_def: &mut CutSceneGameOverStateDef,
    delta: Duration,
) -> (next: Option<CutsceneStepState>)
    ensures
        other_timers_kept(*old(cutscene_timers), *final(cutscene_timers), old(cutscene_timers).cur_state),
        final(cutscene_gameover_def).state == old(cutscene_gameover_def).state,
        !step_has_timer(old(cutscene_timers).cur_state) ==> next is None,
        step_has_timer(old(cutscene_timers).cur_state) && once_running(
            timer_of(*old(cutscene_timers), old(cutscene_timers).cur_state),
        ) ==> ticked_once(
            timer_of(*old(cutscene_timers), old(cutscene_timers).cur_state),
            timer_of(*final(cutscene_timers), old(cutscene_timers).cur_state),
            delta,
        ),
        step_has_timer(old(cutscene_timers).cur_state) ==> (next is Some <==> timer_just_finished(
            timer_of(*final(cutscene_timers), old(cutscene_timers).cur_state),
        )),
        timer_duration_nanos(timer_of(*final(cutscene_timers), old(cutscene_timers).cur_state))
            == timer_duration_nanos(timer_of(*old(cutscene_timers), old(cutscene_timers).cur_state)),
        next is None ==> final(cutscene_gameover_def).cur_index == old(cutscene_gameover_def).cur_index
            && final(cutscene_timers).cur_state == old(cutscene_timers).cur_state,
        next matches Some(s) ==> step_has_timer(old(cutscene_timers).cur_state)
            && (final(cutscene_gameover_def).cur_index, s) == next_cutscene_step(
                old(cutscene_gameover_def).state@,
                old(cutscene_gameover_def).cur_index,
            )
            && final(cutscene_timers).cur_state == s,
{
    step_cutscene(
        cutscene_timers,
        &cutscene_gameover_def.state,
        &mut cutscene_gameover_def.cur_index,
        delta,
    )
}

/// Restarts the timer of the current step, if it has one: it is then
/// neither finished nor just finished, and keeps its duration.
pub fn reset_cutscene_timer(cutscene_timers: &mut CutSceneTimers)
    ensures
        step_has_timer(old(cutscene_timers).cur_state) ==> timer_flags_clear(
            timer_of(*final(cutscene_timers), old(cutscene_timers).cur_state),
        ),
        step_has_timer(old(cutscene_timers).cur_state) ==> restarted_from(
            timer_of(*old(cutscene_timers), old(cutscene_timers).cur_state),
            timer_of(*final(cutscene_timers), old(cutscene_timers).cur_state),
        ),
        timer_duration_nanos(timer_of(*final(cutscene_timers), old(cutscene_timers).cur_state))
            == timer_duration_nanos(timer_of(*old(cutscene_timers), old(cutscene_timers).cur_state)),
        !step_has_timer(old(cutscene_timers).cur_state) ==> *final(cutscene_timers) == *old(cutscene_timers),
        other_timers_kept(*old(cutscene_timers), *final(cutscene_timers), old(cutscene_timers).cur_state),
        final(cutscene_timers).cur_state == old(cutscene_timers).cur_state,
{
    match cutscene_timers.get_cur_timer() {
        Some(timer) => {
            timer_reset(timer);
        },
        None => {},
    }
}

/// Entering the cutscene between levels: its list starts again at the first
/// step, that step becomes the one timed, and its timer restarts, so that the
/// frames that follow play the cutscene through.
pub fn on_before_cutscene(cutscene_timers: &mut CutSceneTimers, cutscene_def: &mut CutSceneStateDef)
    ensures
        final(cutscene_def).cur_index == 0,
        final(cutscene_def).state == old(cutscene_def).state,
        final(cutscene_timers).cur_state == old(cutscene_def).state@[0],
        step_has_timer(old(cutscene_def).state@[0]) ==> restarted_from(
            timer_of(*old(cutscene_timers), old(cutscene_def).state@[0]),
            timer_of(*final(cutscene_timers), old(cutscene_def).state@[0]),
        ),
        other_timers_kept(*old(cutscene_timers), *final(cutscene_timers), old(cutscene_def).state@[0]),
{
    cutscene_def.cur_index = 0;
    cutscene_timers.cur_state = cutscene_def.state[0];
    reset_cutscene_timer(cutscene_timers);
}

/// Entering the game-over state: the current step's timer restarts and no
/// fireworks burst is counted.
pub fn on_game_over_state(cutscene_timers: &mut CutSceneTimers, game_config: &mut GameConfig)
    ensures
        other_timers_kept(*old(cutscene_timers), *final(cutscene_timers), old(cutscene_timers).cur_state),
        final(cutscene_timers).cur_state == old(cutscene_timers).cur_state,
        step_has_timer(old(cutscene_timers).cur_state) ==> restarted_from(
            timer_of(*old(cutscene_timers), old(cutscene_timers).cur_state),
            timer_of(*final(cutscene_timers), old(cutscene_timers).cur_state),
        ),
        !step_has_timer(old(cutscene_timers).cur_state) ==> *final(cutscene_timers) == *old(cutscene_timers),
        *final(game_config) == (GameConfig { fireworks_count: 0, ..*old(game_config) }),
{
    reset_cutscene_timer(cutscene_timers);
    game_config.fireworks_count = 0;
}

/// The frame of the end-of-game cutscene's fireworks: like `fireworks_spec`,
/// but never moving the game on.
pub open spec fn cutscene_fireworks_spec(finished: bool, count: usize) -> FireworksStep {
    FireworksStep { advance: false, ..fireworks_spec(finished, count) }
}

/// One frame of the fireworks of the end-of-game cutscene: the current step's
/// timer advances by `delta`; whether it is finished comes from the timer,
/// and the frame launches a burst as `fireworks_spec` says, restarting the
/// timer after it. Without a timed step nothing happens.
pub fn cutscene_gameover_state_system(
    cutscene_timers: &mut CutSceneTimers,
    game_config: &mut GameConfig,
    delta: Duration,
) -> (step: FireworksStep)
    ensures
        other_timers_kept(*old(cutscene_timers), *final(cutscene_timers), old(cutscene_timers).cur_state),
        final(cutscene_timers).cur_state == old(cutscene_timers).cur_state,
        !step_has_timer(old(cutscene_timers).cur_state) ==> step == cutscene_fireworks_spec(
            false,
            old(game_config).fireworks_count,
        ) && *final(game_config) == *old(game_config),
        step_has_timer(old(cutscene_timers).cur_state) && step.launch ==> timer_flags_clear(
            timer_of(*final(cutscene_timers), old(cutscene_timers).cur_state),
        ),
        step_has_timer(old(cutscene_timers).cur_state) && !step.launch
            && old(game_config).fireworks_count < FIREWORKS_BURSTS ==> !timer_finished(
            timer_of(*final(cutscene_timers), old(cutscene_timers).cur_state),
        ),
        timer_duration_nanos(timer_of(*final(cutscene_timers), old(cutscene_timers).cur_state))
            == timer_duration_nanos(timer_of(*old(cutscene_timers), old(cutscene_timers).cur_state)),
        step_has_timer(old(cutscene_timers).cur_state) && once_running(
            timer_of(*old(cutscene_timers), old(cutscene_timers).cur_state),
        ) ==> {
            let before = timer_of(*old(cutscene_timers), old(cutscene_timers).cur_state);
            let after = timer_of(*final(cutscene_timers), old(cutscene_timers).cur_state);
            let finished = ticked_finished(before, delta);
            &&& step == cutscene_fireworks_spec(finished, old(game_config).fireworks_count)
            &&& *final(game_config) == (GameConfig {
                fireworks_count: fireworks_count_after(finished, old(game_config).fireworks_count),
                ..*old(game_config)
            })
            &&& step.launch ==> restarted_from(before, after)
            &&& !step.launch ==> ticked_once(before, after, delta)
        },
        step.sound == (step.launch && old(game_config).fireworks_count % 2 == 0),
        step.launch ==> old(game_config).fireworks_count < FIREWORKS_BURSTS,
        !step.advance,
        step.launch ==> *final(game_config) == (GameConfig {
            fireworks_count: (old(game_config).fireworks_count + 1) as usize,
            ..*old(game_config)
        }),
        !step.launch ==> *final(game_config) == *old(game_config),
        !step_has_timer(old(cutscene_timers).cur_state) ==> !step.launch,
        step_has_timer(old(cutscene_timers).cur_state) && once_running(
            timer_of(*old(cutscene_timers), old(cutscene_timers).cur_state),
        ) ==> step.launch == (ticked_finished(timer_of(*old(cutscene_timers), old(cutscene_timers).cur_state), delta)
            && old(game_config).fireworks_count < FIREWORKS_BURSTS),
        exists|finished: bool|
            step == cutscene_fireworks_spec(finished, old(game_config).fireworks_count)
            && *final(game_config) == (GameConfig {
                fireworks_count: fireworks_count_after(finished, old(game_config).fireworks_count),
                ..*old(game_config)
            }),
{
    let count = game_config.fireworks_count;
    match cutscene_timers.get_cur_timer() {
        Some(timer) => {
            let status = timer_tick(timer, delta);
            let step = fireworks_step(status.finished, count);
            if step.launch {
                game_config.fireworks_count = count + 1;
                timer_reset(timer);
            }
            let r = FireworksStep { advance: false, ..step };
            assert(r == cutscene_fireworks_spec(status.finished, count));
            assert(game_config.fireworks_count == fireworks_count_after(status.finished, count));
            r
        },
        None => {
            let step = fireworks_step(false, count);
            let r = FireworksStep { advance: false, ..step };
            assert(r == cutscene_fireworks_spec(false, count));
            assert(game_config.fireworks_count == fireworks_count_after(false, count));
            r
        },
    }
}

/// A frame of the end-of-game cutscene launches a burst when its timer is
/// finished and fewer than six bursts are out; the burst has the sound
/// exactly when the bursts counted before it are even, as in the game-over
/// show; the cutscene never moves the game on.
pub proof fn lemma_cutscene_fireworks(finished: bool, count: usize)
    ensures
        cutscene_fireworks_spec(finished, count).launch == (finished && count < FIREWORKS_BURSTS),
        cutscene_fireworks_spec(finished, count).sound == (finished && count < FIREWORKS_BURSTS && count % 2 == 0),
        !cutscene_fireworks_spec(finished, count).advance,
        cutscene_fireworks_spec(finished, count).launch == fireworks_spec(finished, count).launch,
        cutscene_fireworks_spec(finished, count).sound == fireworks_spec(finished, count).sound,
{
}

/// The bursts with sound of the end-of-game cutscene over a sequence of
/// frames, starting from `count`.
pub open spec fn cutscene_sounds_run(count: usize, frames: Seq<bool>) -> nat
    decreases frames.len(),
{
    if frames.len() == 0 {
        0
    } else {
        cutscene_sounds_run(count, frames.drop_last()) + if cutscene_fireworks_spec(
            frames.last(),
            fireworks_count_run(count, frames.drop_last()),
        ).sound {
            1nat
        } else {
            0nat
        }
    }
}

/// Over a show from zero bursts, the end-of-game cutscene plays the sound
/// with half the bursts launched, rounded up.
pub proof fn lemma_cutscene_sounds(frames: Seq<bool>)
    ensures
        cutscene_sounds_run(0, frames) == (fireworks_count_run(0, frames) + 1) / 2,
{
    lemma_cutscene_sounds_match(frames);
    lemma_fireworks_sounds(frames);
}

/// The cutscene's sounds are those of the game-over show.
proof fn lemma_cutscene_sounds_match(frames: Seq<bool>)
    ensures
        cutscene_sounds_run(0, frames) == crate::game_state_plug::fireworks_sounds_run(0, frames),
    decreases frames.len(),
{
    if frames.len() > 0 {
        lemma_cutscene_sounds_match(frames.drop_last());
    }
}

/// A cutscene between levels goes before, during, after, then ends with no
/// step and its list back at the start; so does the end-of-game cutscene
/// through its fireworks step.
pub proof fn lemma_cutscene_cycles()
    ensures
        next_cutscene_step(level_cutscene_steps(), 0) == (1usize, CutsceneStepState::InCutscene),
        next_cutscene_step(level_cutscene_steps(), 1) == (2usize, CutsceneStepState::AfterCutscene),
        next_cutscene_step(level_cutscene_steps(), 2) == (0usize, CutsceneStepState::NoState),
        next_cutscene_step(game_over_cutscene_steps(), 0) == (1usize, CutsceneStepState::InGameOverCutscene),
        next_cutscene_step(game_over_cutscene_steps(), 1) == (2usize, CutsceneStepState::AfterCutscene),
        next_cutscene_step(game_over_cutscene_steps(), 2) == (0usize, CutsceneStepState::NoState),
{
}

/// Whatever the step reached, the next index points into the list, and the
/// step that comes with it is the list's entry there, or no step at the start.
pub proof fn lemma_cutscene_index_in_range(states: Seq<CutsceneStepState>, index: usize)
    requires
        states.len() > 0,
        index < usize::MAX,
    ensures
        next_cutscene_step(states, index).0 < states.len(),
        next_cutscene_step(states, index).0 == 0 ==> next_cutscene_step(states, index).1 == CutsceneStepState::NoState,
        next_cutscene_step(states, index).0 > 0 ==> next_cutscene_step(states, index).1
            == states[next_cutscene_step(states, index).0 as int],
{
}

}
