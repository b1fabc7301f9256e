use vstd::prelude::*;
use bevy::time::Timer;
use core::time::Duration;
use crate::config::{GameConfig, GameState, GameStateDef, Score, LEVEL_COUNT, FIREWORKS_BURSTS, default_level_states};
use crate::timer::{
    timer_tick, timer_reset, timer_finished, timer_just_finished, timer_duration_nanos, once_running, ticked_once,
    ticked_finished, restarted_from,
};
use crate::custscene_public::timer_flags_clear;

verus! {

/// The progress reached after one automatic step: the next state of the
/// current level, or the first state of the next level once the current level
/// is through, or, on the last level, its first state again.
pub open spec fn advanced(config: GameConfig, levels: Seq<Seq<GameState>>) -> GameConfig {
    let len = levels[config.game_level as int].len();
    if config.game_level_index + 1 < len {
        GameConfig { game_level_index: (config.game_level_index + 1) as usize, ..config }
    } else if config.game_level + 1 < config.max_game_level {
        GameConfig { game_level: (config.game_level + 1) as usize, game_level_index: 0, ..config }
    } else {
        GameConfig { game_level_index: 0, ..config }
    }
}

/// The state that the progress points at.
pub open spec fn current_state(config: GameConfig, levels: Seq<Seq<GameState>>) -> GameState {
    levels[config.game_level as int][config.game_level_index as int]
}

/// The progress points at a state of the level lists.
pub open spec fn points_at_state(config: GameConfig, levels: Seq<Seq<GameState>>) -> bool {
    &&& config.game_level < levels.len()
    &&& config.game_level_index < levels[config.game_level as int].len()
}

/// One automatic step is possible: the progress points at a state, and so
/// does the progress after the step.
pub open spec fn can_advance(config: GameConfig, levels: Seq<Seq<GameState>>) -> bool {
    &&& points_at_state(config, levels)
    &&& points_at_state(advanced(config, levels), levels)
}

/// Well-formed progress: it points at a state, no level is empty, and the
/// number of levels played does not exceed the levels defined.
pub open spec fn progress_wf(config: GameConfig, levels: Seq<Seq<GameState>>) -> bool {
    &&& points_at_state(config, levels)
    &&& forall|l: int| 0 <= l < levels.len() ==> #[trigger] levels[l].len() > 0
    &&& config.max_game_level <= levels.len()
}

/// Moves the game to its next state, in the order of the level lists, and
/// returns that state.
pub fn on_auto_next_game_state_event(game_config: &mut GameConfig, game_state_def: &GameStateDef) -> (next: GameState)
    requires
        can_advance(*old(game_config), game_state_def.levels()),
    ensures
        *final(game_config) == advanced(*old(game_config), game_state_def.levels()),
        next == current_state(*final(game_config), game_state_def.levels()),
        final(game_config).max_game_level == old(game_config).max_game_level,
        final(game_config).fireworks_count == old(game_config).fireworks_count,
        old(game_config).game_level_index + 1 < game_state_def.game_states@[old(game_config).game_level as int]@.len()
            ==> final(game_config).game_level == old(game_config).game_level
            && final(game_config).game_level_index == old(game_config).game_level_index + 1,
        old(game_config).game_level_index + 1 >= game_state_def.game_states@[old(game_config).game_level as int]@.len()
            && old(game_config).game_level + 1 < old(game_config).max_game_level
            ==> final(game_config).game_level == old(game_config).game_level + 1
            && final(game_config).game_level_index == 0,
        old(game_config).game_level_index + 1 >= game_state_def.game_states@[old(game_config).game_level as int]@.len()
            && old(game_config).game_level + 1 >= old(game_config).max_game_level
            ==> final(game_config).game_level == old(game_config).game_level
            && final(game_config).game_level_index == 0,
        next == game_state_def.game_states@[final(game_config).game_level as int]@[final(game_config).game_level_index as int],
{
    let ghost levels = game_state_def.levels();
    let cur_level = game_config.game_level;
    let cur_level_index = game_config.game_level_index;
    let mut next_level = cur_level;
    let next_level_index;
    assert(levels[cur_level as int] == game_state_def.game_states@[cur_level as int]@);
    let status_length = game_state_def.game_states[cur_level].len();
    if cur_level_index + 1 < status_length {
        next_level_index = cur_level_index + 1;
    } else {
        next_level_index = 0;
        if next_level + 1 < game_config.max_game_level {
            next_level = cur_level + 1;
        }
    }
    game_config.game_level = next_level;
    game_config.game_level_index = next_level_index;
    assert(levels[next_level as int] == game_state_def.game_states@[next_level as int]@);
    game_state_def.game_states[next_level][next_level_index]
}

/// Well-formed progress can always take one more step, and stays
/// well-formed; the level never goes down and goes up by at most one.
pub proof fn lemma_advance_keeps_progress_wf(config: GameConfig, levels: Seq<Seq<GameState>>)
    requires
        progress_wf(config, levels),
    ensures
        can_advance(config, levels),
        progress_wf(advanced(config, levels), levels),
        config.game_level <= advanced(config, levels).game_level <= config.game_level + 1,
        advanced(config, levels).max_game_level == config.max_game_level,
        advanced(config, levels).fireworks_count == config.fireworks_count,
{
    let n = advanced(config, levels);
    assert(levels[n.game_level as int].len() > 0);
}

/// One step moves to the next state of the current level whenever that level
/// has one, whatever the other fields hold; once the level is through it goes
/// to the first state of the next level, or, on the last level played, to the
/// first state of that level. The number of levels and of bursts never change.
pub proof fn lemma_advance_step(config: GameConfig, levels: Seq<Seq<GameState>>)
    requires
        points_at_state(config, levels),
        levels[config.game_level as int].len() <= usize::MAX,
    ensures
        advanced(config, levels).max_game_level == config.max_game_level,
        advanced(config, levels).fireworks_count == config.fireworks_count,
        config.game_level_index + 1 < levels[config.game_level as int].len() ==> advanced(config, levels).game_level
            == config.game_level && advanced(config, levels).game_level_index == config.game_level_index + 1,
        config.game_level_index + 1 >= levels[config.game_level as int].len() && config.game_level + 1
            < config.max_game_level ==> advanced(config, levels).game_level == config.game_level + 1
            && advanced(config, levels).game_level_index == 0,
        config.game_level_index + 1 >= levels[config.game_level as int].len() && config.game_level + 1
            >= config.max_game_level ==> advanced(config, levels).game_level == config.game_level
            && advanced(config, levels).game_level_index == 0,
{
}

/// With the default level lists, the game-over screen on the last level is
/// followed by the leaderboard, and the leaderboard by a new round of that
/// level, whatever the bursts counted.
pub proof fn lemma_game_over_then_leaderboard(config: GameConfig)
    requires
        config.game_level == 2,
        config.game_level_index == 2,
    ensures
        current_state(config, default_level_states()) == GameState::GameOver,
        advanced(config, default_level_states()).game_level == 2,
        advanced(config, default_level_states()).game_level_index == 3,
        current_state(advanced(config, default_level_states()), default_level_states()) == GameState::Leaderboard,
        advanced(advanced(config, default_level_states()), default_level_states()).game_level_index == 0,
        config.max_game_level <= 3 ==> advanced(advanced(config, default_level_states()), default_level_states()).game_level
            == 2,
        config.max_game_level <= 3 ==> current_state(
            advanced(advanced(config, default_level_states()), default_level_states()),
            default_level_states(),
        ) == GameState::BeforeInGame,
{
}

/// With the default level lists, every level starts with the pause before
/// play, and the game-over screen and leaderboard come only on the last level.
pub proof fn lemma_levels_start_with_pause(config: GameConfig)
    requires
        progress_wf(config, default_level_states()),
    ensures
        advanced(config, default_level_states()).game_level_index == 0 ==> current_state(
            advanced(config, default_level_states()),
            default_level_states(),
        ) == GameState::BeforeInGame,
        current_state(config, default_level_states()) == GameState::GameOver
            || current_state(config, default_level_states()) == GameState::Leaderboard
            ==> config.game_level == 2,
{
    lemma_advance_keeps_progress_wf(config, default_level_states());
}

/// The progress at the start of the game.
pub open spec fn initial_progress() -> GameConfig {
    GameConfig { game_level: 0, game_level_index: 0, max_game_level: LEVEL_COUNT, fireworks_count: 0 }
}

/// The progress after `k` automatic steps from the start of the game, with the
/// default level lists.
pub open spec fn progress_after(k: nat) -> GameConfig
    decreases k,
{
    if k == 0 {
        initial_progress()
    } else {
        advanced(progress_after((k - 1) as nat), default_level_states())
    }
}

/// Level and index reached after `k` steps: three states of the first level,
/// three of the second, then the four states of the last level over and over.
pub open spec fn scheduled_position(k: nat) -> (int, int) {
    if k < 3 {
        (0, k as int)
    } else if k < 6 {
        (1, k - 3)
    } else {
        (2, (k - 6) % 4)
    }
}

/// From the start of the game, the steps go through every state of the first
/// level, then of the second, then of the last level, whose states then
/// repeat; the game is over only on the last level.
pub proof fn lemma_default_schedule(k: nat)
    ensures
        progress_after(k).game_level == scheduled_position(k).0,
        progress_after(k).game_level_index == scheduled_position(k).1,
        progress_after(k).max_game_level == LEVEL_COUNT,
        progress_after(k).fireworks_count == 0,
        progress_wf(progress_after(k), default_level_states()),
        current_state(progress_after(k), default_level_states()) == GameState::GameOver
            ==> progress_after(k).game_level == 2,
    decreases k,
{
    let levels = default_level_states();
    if k > 0 {
        lemma_default_schedule((k - 1) as nat);
        let p = progress_after((k - 1) as nat);
        lemma_advance_keeps_progress_wf(p, levels);
        if k >= 7 {
            let m: int = k - 7;
            assert(m % 4 < 3 ==> (m + 1) % 4 == m % 4 + 1);
            assert(m % 4 == 3 ==> (m + 1) % 4 == 0);
        }
    }
}


/// The timer of the pause before a level starts.
pub struct BeforeInGameTimer(pub Timer);

/// The timer between two fireworks bursts at the end of the game.
pub struct OverCutsceneTimer(pub Timer);

/// The events that the game triggers, in the order in which it triggers them.
#[derive(Clone, Copy, Debug, PartialEq, Eq, Structural)]
pub enum GameTrigger {
    GameLevel,
    NextLevelBoids,
    AutoNextGameState,
}

/// The events that start a level: show the level, spawn its bubbles, move to
/// the next state.
pub open spec fn level_start_triggers() -> Seq<GameTrigger> {
    seq![GameTrigger::GameLevel, GameTrigger::NextLevelBoids, GameTrigger::AutoNextGameState]
}

/// Restarts the pause before a level: its timer is neither finished nor just
/// finished, and keeps its duration.
pub fn on_before_in_game(before_in_game_timer: &mut BeforeInGameTimer)
    ensures
        !timer_finished(final(before_in_game_timer).0),
        !timer_just_finished(final(before_in_game_timer).0),
        timer_duration_nanos(final(before_in_game_timer).0) == timer_duration_nanos(old(before_in_game_timer).0),
        restarted_from(old(before_in_game_timer).0, final(before_in_game_timer).0),
{
    timer_reset(&mut before_in_game_timer.0);
}

/// Advances the pause before a level by `delta`; once its timer is finished,
/// returns the events that start the level, and no event before.
pub fn before_in_game_system(before_in_game_timer: &mut BeforeInGameTimer, delta: Duration) -> (triggers: Vec<GameTrigger>)
    ensures
        triggers@ == (if timer_finished(final(before_in_game_timer).0) {
            level_start_triggers()
        } else {
            Seq::<GameTrigger>::empty()
        }),
        timer_duration_nanos(final(before_in_game_timer).0) == timer_duration_nanos(old(before_in_game_timer).0),
        once_running(old(before_in_game_timer).0) ==> ticked_once(
            old(before_in_game_timer).0,
            final(before_in_game_timer).0,
            delta,
        ),
{
    let status = timer_tick(&mut before_in_game_timer.0, delta);
    if status.finished {
        let v = vec![GameTrigger::GameLevel, GameTrigger::NextLevelBoids, GameTrigger::AutoNextGameState];
        assert(v@ =~= level_start_triggers());
        v
    } else {
        Vec::new()
    }
}

/// What a frame of play decides: the level whose time grows, if the level is
/// one of the levels played, and whether the level is cleared.
#[derive(Clone, Copy, Debug, PartialEq, Eq, Structural)]
pub struct InGameStep {
    pub timed_level: Option<usize>,
    pub level_cleared: bool,
}

/// A frame of play: the current level's time grows while the level is one of
/// those played, and the level is cleared once no bubble is left.
pub fn in_game_system(config: &GameConfig, boid_count: usize) -> (step: InGameStep)
    ensures
        step.timed_level == (if config.game_level < config.max_game_level {
            Some(config.game_level)
        } else {
            None::<usize>
        }),
        step.level_cleared == (boid_count == 0),
{
    let game_level = config.game_level;
    let timed_level = if game_level < config.max_game_level { Some(game_level) } else { None };
    InGameStep { timed_level, level_cleared: boid_count == 0 }
}

/// The level whose time the time display shows: the current level, while its
/// time is kept (it is one of the levels played and of the three timed ones).
pub fn elapsed_time_update_system(config: &GameConfig) -> (level: Option<usize>)
    ensures
        level == (if config.game_level < config.max_game_level && config.game_level < LEVEL_COUNT {
            Some(config.game_level)
        } else {
            None::<usize>
        }),
{
    if config.game_level < config.max_game_level && config.game_level < LEVEL_COUNT {
        Some(config.game_level)
    } else {
        None
    }
}

/// Each bubble scores once per frame, however many bullets touch it: the
/// bubbles hit, in the order of their first hit, each once.
pub open spec fn first_hits(hits: Seq<usize>) -> Seq<usize>
    decreases hits.len(),
{
    if hits.len() == 0 {
        Seq::empty()
    } else if first_hits(hits.drop_last()).contains(hits.last()) {
        first_hits(hits.drop_last())
    } else {
        first_hits(hits.drop_last()).push(hits.last())
    }
}

/// The bubbles to remove and score in a frame, from the bubbles that bullets
/// touch, in the order found (a bubble appears once per touching bullet):
/// each bubble once, in the order of its first hit.
pub fn bubbles_to_score(hits: &Vec<usize>) -> (scored: Vec<usize>)
    ensures
        scored@ == first_hits(hits@),
        forall|b: usize| scored@.contains(b) <==> hits@.contains(b),
        scored@.no_duplicates(),
        forall|i: int, j: int| 0 <= i < j < scored@.len() ==> hit_before(hits@, #[trigger] scored@[i], #[trigger] scored@[j]),
{
    proof {
        lemma_each_bubble_scores_once(hits@);
    }
    let mut scored: Vec<usize> = Vec::new();
    let mut i: usize = 0;
    while i < hits.len()
        invariant
            i <= hits@.len(),
            scored@ == first_hits(hits@.subrange(0, i as int)),
        decreases hits@.len() - i,
    {
        let bubble = hits[i];
        let mut seen = false;
        let mut j: usize = 0;
        while j < scored.len()
            invariant
                j <= scored@.len(),
                seen == (exists|k: int| 0 <= k < j && scored@[k] == bubble),
            decreases scored@.len() - j,
        {
            if scored[j] == bubble {
                seen = true;
            }
            j = j + 1;
        }
        assert(seen == scored@.contains(bubble));
        assert(hits@.subrange(0, i + 1).drop_last() =~= hits@.subrange(0, i as int));
        if !seen {
            scored.push(bubble);
        }
        i = i + 1;
    }
    assert(hits@.subrange(0, i as int) =~= hits@);
    scored
}

/// `u` is hit before any hit of `v`.
pub open spec fn hit_before(hits: Seq<usize>, u: usize, v: usize) -> bool {
    exists|a: int| 0 <= a < hits.len() && hits[a] == u && forall|b: int| 0 <= b <= a ==> hits[b] != v
}

/// The bubbles scored are exactly the bubbles hit, each once, in the order of
/// their first hits.
pub proof fn lemma_each_bubble_scores_once(hits: Seq<usize>)
    ensures
        forall|b: usize| first_hits(hits).contains(b) <==> hits.contains(b),
        first_hits(hits).no_duplicates(),
        forall|i: int, j: int|
            0 <= i < j < first_hits(hits).len() ==> hit_before(hits, #[trigger] first_hits(hits)[i], #[trigger] first_hits(hits)[j]),
    decreases hits.len(),
{
    broadcast use vstd::seq_lib::group_seq_properties;
    if hits.len() > 0 {
        let prefix = hits.drop_last();
        let x = hits.last();
        let p = first_hits(prefix);
        lemma_each_bubble_scores_once(prefix);
        assert(hits =~= prefix.push(x));
        assert forall|u: usize, v: usize| hit_before(prefix, u, v) implies hit_before(hits, u, v) by {
            let a = choose|a: int| 0 <= a < prefix.len() && prefix[a] == u && forall|b: int| 0 <= b <= a ==> prefix[b] != v;
            assert(hits[a] == u);
            assert forall|b: int| 0 <= b <= a implies hits[b] != v by {
                assert(hits[b] == prefix[b]);
            }
        }
        if !p.contains(x) {
            let q = p.push(x);
            assert forall|i: int, j: int| 0 <= i < j < q.len() implies hit_before(hits, #[trigger] q[i], #[trigger] q[j]) by {
                if j == q.len() - 1 {
                    assert(prefix.contains(q[i]));
                    let a = choose|a: int| 0 <= a < prefix.len() && prefix[a] == q[i];
                    assert(hits[a] == q[i]);
                    assert(!prefix.contains(x));
                    assert forall|b: int| 0 <= b <= a implies hits[b] != x by {
                        assert(hits[b] == prefix[b]);
                        if prefix[b] == x {
                            assert(prefix.contains(x));
                        }
                    }
                } else {
                    assert(q[i] == p[i] && q[j] == p[j]);
                }
            }
            assert forall|a: int, c: int| 0 <= a < q.len() && 0 <= c < q.len() && a != c implies q[a] != q[c] by {
                if a == q.len() - 1 {
                    assert(p[c] == q[c]);
                } else if c == q.len() - 1 {
                    assert(p[a] == q[a]);
                } else {
                    assert(p[a] == q[a] && p[c] == q[c]);
                }
            }
        }
    }
}

/// What one frame of the end-of-game fireworks does: launch a burst, play
/// the fireworks sound with it, and move to the next game state.
#[derive(Clone, Copy, Debug, PartialEq, Eq, Structural)]
pub struct FireworksStep {
    pub launch: bool,
    pub sound: bool,
    pub advance: bool,
}

/// A burst is launched when the timer is finished and fewer than six bursts
/// were launched; every other burst, from the first, has the sound; once six
/// bursts are out, a finished timer moves the game on.
pub open spec fn fireworks_spec(finished: bool, count: usize) -> FireworksStep {
    let launch = finished && count < FIREWORKS_BURSTS;
    FireworksStep {
        launch,
        sound: launch && count % 2 == 0,
        advance: finished && !launch && count >= FIREWORKS_BURSTS,
    }
}

/// The bursts counted after one frame.
pub open spec fn fireworks_count_after(finished: bool, count: usize) -> usize {
    if fireworks_spec(finished, count).launch { (count + 1) as usize } else { count }
}

/// Decides one frame of the end-of-game fireworks from whether the timer is
/// finished and how many bursts were launched.
pub fn fireworks_step(finished: bool, count: usize) -> (step: FireworksStep)
    ensures
        step == fireworks_spec(finished, count),
{
    let launch = finished && count < FIREWORKS_BURSTS;
    FireworksStep {
        launch,
        sound: launch && count % 2 == 0,
        advance: finished && !launch && count >= FIREWORKS_BURSTS,
    }
}

/// Entering the game-over state: the fireworks timer restarts and no burst
/// is counted.
pub fn on_game_over(over_cutscene_timer: &mut OverCutsceneTimer, game_config: &mut GameConfig)
    ensures
        restarted_from(old(over_cutscene_timer).0, final(over_cutscene_timer).0),
        *final(game_config) == (GameConfig { fireworks_count: 0, ..*old(game_config) }),
{
    timer_reset(&mut over_cutscene_timer.0);
    game_config.fireworks_count = 0;
}

/// One frame of the end-of-game fireworks: the timer advances by `delta`;
/// whether it is finished comes from the timer, and the frame then does what
/// `fireworks_spec` says for it; after a burst the timer restarts.
pub fn game_over_system(
    over_cutscene_timer: &mut OverCutsceneTimer,
    game_config: &mut GameConfig,
    delta: Duration,
) -> (step: FireworksStep)
    ensures
        exists|finished: bool|
            step == fireworks_spec(finished, old(game_config).fireworks_count)
            && *final(game_config) == (GameConfig {
                fireworks_count: fireworks_count_after(finished, old(game_config).fireworks_count),
                ..*old(game_config)
            })
            && (step.launch ==> timer_flags_clear(final(over_cutscene_timer).0))
            && (!step.launch ==> timer_finished(final(over_cutscene_timer).0) == finished),
        step.sound == (step.launch && old(game_config).fireworks_count % 2 == 0),
        step.launch ==> old(game_config).fireworks_count < FIREWORKS_BURSTS,
        step.advance ==> !step.launch && old(game_config).fireworks_count >= FIREWORKS_BURSTS,
        step.launch ==> *final(game_config) == (GameConfig {
            fireworks_count: (old(game_config).fireworks_count + 1) as usize,
            ..*old(game_config)
        }),
        !step.launch ==> *final(game_config) == *old(game_config),
        once_running(old(over_cutscene_timer).0) ==> step.launch == (ticked_finished(old(over_cutscene_timer).0, delta)
            && old(game_config).fireworks_count < FIREWORKS_BURSTS) && step.advance == (ticked_finished(
            old(over_cutscene_timer).0,
            delta,
        ) && old(game_config).fireworks_count >= FIREWORKS_BURSTS),
        once_running(old(over_cutscene_timer).0) ==> {
            let before = old(over_cutscene_timer).0;
            let after = final(over_cutscene_timer).0;
            let finished = ticked_finished(before, delta);
            &&& step == fireworks_spec(finished, old(game_config).fireworks_count)
            &&& *final(game_config) == (GameConfig {
                fireworks_count: fireworks_count_after(finished, old(game_config).fireworks_count),
                ..*old(game_config)
            })
            &&& step.launch ==> restarted_from(before, after)
            &&& !step.launch ==> ticked_once(before, after, delta)
        },
{
    let status = timer_tick(&mut over_cutscene_timer.0, delta);
    let step = fireworks_step(status.finished, game_config.fireworks_count);
    if step.launch {
        game_config.fireworks_count = game_config.fireworks_count + 1;
        let after = timer_reset(&mut over_cutscene_timer.0);
        assert(!after.finished);
    }
    step
}

/// The bursts counted after a sequence of frames, each finished or not,
/// starting from `count`.
pub open spec fn fireworks_count_run(count: usize, frames: Seq<bool>) -> usize
    decreases frames.len(),
{
    if frames.len() == 0 {
        count
    } else {
        fireworks_count_after(frames.last(), fireworks_count_run(count, frames.drop_last()))
    }
}

/// The number of finished frames in a sequence.
pub open spec fn finished_frames(frames: Seq<bool>) -> nat
    decreases frames.len(),
{
    if frames.len() == 0 {
        0
    } else {
        finished_frames(frames.drop_last()) + if frames.last() { 1nat } else { 0nat }
    }
}

/// A fireworks show from zero bursts launches one burst for each finished
/// frame until six bursts are out, never more.
pub proof fn lemma_fireworks_show(frames: Seq<bool>)
    ensures
        fireworks_count_run(0, frames) == (if finished_frames(frames) < FIREWORKS_BURSTS {
            finished_frames(frames)
        } else {
            FIREWORKS_BURSTS as nat
        }),
    decreases frames.len(),
{
    if frames.len() > 0 {
        lemma_fireworks_show(frames.drop_last());
    }
}

/// The game leaves the fireworks only after six bursts: a frame that moves
/// the game on launches nothing and finds six bursts counted. A finished
/// timer launches a burst while fewer than six are out, with the sound when
/// the bursts counted before it are even.
pub proof fn lemma_fireworks_advance_after_show(finished: bool, count: usize)
    ensures
        fireworks_spec(finished, count).advance ==> count >= FIREWORKS_BURSTS
            && !fireworks_spec(finished, count).launch,
        fireworks_spec(finished, count).launch ==> !fireworks_spec(finished, count).advance,
        count <= FIREWORKS_BURSTS ==> fireworks_count_after(finished, count) <= FIREWORKS_BURSTS,
        fireworks_spec(finished, count).launch == (finished && count < FIREWORKS_BURSTS),
        fireworks_spec(finished, count).sound == (finished && count < FIREWORKS_BURSTS && count % 2 == 0),
        fireworks_spec(finished, count).advance == (finished && count >= FIREWORKS_BURSTS),
{
}


/// The bursts with sound over a sequence of frames, starting from `count`.
pub open spec fn fireworks_sounds_run(count: usize, frames: Seq<bool>) -> nat
    decreases frames.len(),
{
    if frames.len() == 0 {
        0
    } else {
        fireworks_sounds_run(count, frames.drop_last()) + if fireworks_spec(
            frames.last(),
            fireworks_count_run(count, frames.drop_last()),
        ).sound {
            1nat
        } else {
            0nat
        }
    }
}

/// A fireworks show from zero bursts plays the sound with the first, third
/// and fifth bursts: half the bursts launched, rounded up.
pub proof fn lemma_fireworks_sounds(frames: Seq<bool>)
    ensures
        fireworks_sounds_run(0, frames) == (fireworks_count_run(0, frames) + 1) / 2,
    decreases frames.len(),
{
    if frames.len() > 0 {
        lemma_fireworks_sounds(frames.drop_last());
        lemma_fireworks_show(frames.drop_last());
    }
}


/// One game of the session on the leaderboard: its score and its total time.
#[derive(Clone, Copy, Debug, PartialEq, Eq, Structural)]
pub struct RankEntry {
    pub score: u32,
    pub total_millis: u64,
}

/// Entries from the highest score down.
pub open spec fn ranked(entries: Seq<RankEntry>) -> bool {
    forall|i: int, j: int| 0 <= i < j < entries.len() ==> entries[i].score >= entries[j].score
}

/// The ranking of the games of the current session, best first. It lives
/// as long as the application and is kept nowhere else.
pub struct Leaderboard {
    entries: Vec<RankEntry>,
}

impl View for Leaderboard {
    type V = Seq<RankEntry>;

    closed spec fn view(&self) -> Seq<RankEntry> {
        self.entries@
    }
}

impl Leaderboard {
    #[verifier::type_invariant]
    spec fn inv(self) -> bool {
        ranked(self.entries@)
    }

    /// An empty ranking, at the start of a session.
    pub fn new() -> (board: Leaderboard)
        ensures
            board@ == Seq::<RankEntry>::empty(),
    {
        Leaderboard { entries: Vec::new() }
    }

    /// The games of the session, best first.
    pub fn entries(&self) -> (entries: &Vec<RankEntry>)
        ensures
            entries@ == self@,
            ranked(entries@),
    {
        proof {
            use_type_invariant(self);
        }
        &self.entries
    }

    /// Records a game: it goes after every game that scored as much or more,
    /// and before every game that scored less; its place, counted from the
    /// best, is returned.
    pub fn record(&mut self, entry: RankEntry) -> (rank: usize)
        ensures
            rank <= old(self)@.len(),
            final(self)@ == old(self)@.insert(rank as int, entry),
            forall|i: int| 0 <= i < rank ==> old(self)@[i].score >= entry.score,
            forall|i: int| rank <= i < old(self)@.len() ==> old(self)@[i].score < entry.score,
            ranked(final(self)@),
    {
        proof {
            use_type_invariant(&*self);
        }
        let mut entries: Vec<RankEntry> = Vec::new();
        std::mem::swap(&mut entries, &mut self.entries);
        let ghost before = entries@;
        let mut pos: usize = 0;
        while pos < entries.len() && entries[pos].score >= entry.score
            invariant
                entries@ == before,
                ranked(before),
                pos <= before.len(),
                forall|i: int| 0 <= i < pos ==> before[i].score >= entry.score,
            decreases before.len() - pos,
        {
            pos = pos + 1;
        }
        assert forall|i: int| pos <= i < before.len() implies before[i].score < entry.score by {
            assert(before[pos as int].score < entry.score);
        }
        entries.insert(pos, entry);
        let ghost after = entries@;
        assert(after == before.insert(pos as int, entry));
        assert forall|i: int, j: int| 0 <= i < j < after.len() implies after[i].score >= after[j].score by {
            if j < pos {
                assert(after[i] == before[i] && after[j] == before[j]);
            } else if j == pos {
                assert(after[i] == before[i]);
            } else if i < pos {
                assert(after[i] == before[i] && after[j] == before[j - 1]);
            } else if i == pos {
                assert(after[j] == before[j - 1]);
            } else {
                assert(after[i] == before[i - 1] && after[j] == before[j - 1]);
            }
        }
        self.entries = entries;
        pos
    }
}

/// Entering the leaderboard: the game just played, with its score and total
/// time, is ranked among the games of the session; its place is returned.
pub fn on_leaderboard(leaderboard: &mut Leaderboard, score: &Score, total_millis: u64) -> (rank: usize)
    ensures
        rank <= old(leaderboard)@.len(),
        final(leaderboard)@ == old(leaderboard)@.insert(rank as int, RankEntry { score: score.0, total_millis }),
        forall|i: int| 0 <= i < rank ==> old(leaderboard)@[i].score >= score.0,
        forall|i: int| rank <= i < old(leaderboard)@.len() ==> old(leaderboard)@[i].score < score.0,
        ranked(final(leaderboard)@),
{
    leaderboard.record(RankEntry { score: score.0, total_millis })
}

}
