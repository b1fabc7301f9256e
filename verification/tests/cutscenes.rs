use fly_strike::cutscene_plug::on_before_cutscene;
use fly_strike::config::{CutsceneStepState, GameConfig};
use fly_strike::custscene_public::{CutSceneGameOverStateDef, CutSceneStateDef, CutSceneTimers};
use fly_strike::cutscene_plug::{
    advance_cutscene_step, cutscene_gameover_state_system, cutscene_state_system, game_over_state_system,
    on_game_over_state, reset_cutscene_timer,
};
use std::time::Duration;

#[test]
fn level_cutscene_runs_its_three_steps() {
    let mut timers = CutSceneTimers::default();
    let mut def = CutSceneStateDef::default();
    timers.cur_state = CutsceneStepState::BeforeCutscene;
    reset_cutscene_timer(&mut timers);
    assert_eq!(cutscene_state_system(&mut timers, &mut def, Duration::from_millis(1000)), None);
    assert_eq!(
        cutscene_state_system(&mut timers, &mut def, Duration::from_millis(500)),
        Some(CutsceneStepState::InCutscene)
    );
    assert_eq!(def.cur_index, 1);
    assert_eq!(timers.cur_state, CutsceneStepState::InCutscene);
    assert_eq!(
        cutscene_state_system(&mut timers, &mut def, Duration::from_millis(4000)),
        Some(CutsceneStepState::AfterCutscene)
    );
    assert_eq!(
        cutscene_state_system(&mut timers, &mut def, Duration::from_millis(500)),
        Some(CutsceneStepState::NoState)
    );
    assert_eq!(def.cur_index, 0);
    assert_eq!(timers.cur_state, CutsceneStepState::NoState);
}

#[test]
fn cutscene_without_timed_step_stays_put() {
    let mut timers = CutSceneTimers::default();
    let mut def = CutSceneStateDef::default();
    for _ in 0..10 {
        assert_eq!(cutscene_state_system(&mut timers, &mut def, Duration::from_secs(5)), None);
    }
    assert_eq!(def.cur_index, 0);
    assert_eq!(timers.cur_state, CutsceneStepState::NoState);
}

#[test]
fn game_over_cutscene_goes_through_fireworks_step() {
    let mut timers = CutSceneTimers::default();
    let mut def = CutSceneGameOverStateDef::default();
    timers.cur_state = CutsceneStepState::BeforeCutscene;
    assert_eq!(
        game_over_state_system(&mut timers, &mut def, Duration::from_millis(1500)),
        Some(CutsceneStepState::InGameOverCutscene)
    );
    assert_eq!(
        game_over_state_system(&mut timers, &mut def, Duration::from_millis(200)),
        Some(CutsceneStepState::AfterCutscene)
    );
    assert_eq!(def.cur_index, 2);
}

#[test]
fn advance_step_values() {
    let states = [CutsceneStepState::BeforeCutscene, CutsceneStepState::InCutscene, CutsceneStepState::AfterCutscene];
    assert_eq!(advance_cutscene_step(&states, 0, false), None);
    assert_eq!(advance_cutscene_step(&states, 0, true), Some((1, CutsceneStepState::InCutscene)));
    assert_eq!(advance_cutscene_step(&states, 1, true), Some((2, CutsceneStepState::AfterCutscene)));
    assert_eq!(advance_cutscene_step(&states, 2, true), Some((0, CutsceneStepState::NoState)));
    assert_eq!(advance_cutscene_step(&states, 7, true), Some((0, CutsceneStepState::NoState)));
}

#[test]
fn cutscene_fireworks_count_bursts() {
    let mut timers = CutSceneTimers::default();
    let mut config = GameConfig::default();
    config.fireworks_count = 3;
    on_game_over_state(&mut timers, &mut config);
    assert_eq!(config.fireworks_count, 0);
    let step = cutscene_gameover_state_system(&mut timers, &mut config, Duration::from_secs(1));
    assert!(!step.launch && !step.advance);
    timers.cur_state = CutsceneStepState::InGameOverCutscene;
    let step = cutscene_gameover_state_system(&mut timers, &mut config, Duration::from_millis(200));
    assert!(step.launch && step.sound && !step.advance);
    assert_eq!(config.fireworks_count, 1);
    let step = cutscene_gameover_state_system(&mut timers, &mut config, Duration::from_millis(100));
    assert!(!step.launch);
    let step = cutscene_gameover_state_system(&mut timers, &mut config, Duration::from_millis(100));
    assert!(step.launch && !step.sound);
    assert_eq!(config.fireworks_count, 2);
}

#[test]
fn half_second_after_step_ends_the_cutscene() {
    let mut timers = CutSceneTimers::default();
    let mut def = CutSceneStateDef::default();
    def.cur_index = 2;
    timers.cur_state = CutsceneStepState::AfterCutscene;
    assert_eq!(cutscene_state_system(&mut timers, &mut def, Duration::from_millis(499)), None);
    assert_eq!(
        cutscene_state_system(&mut timers, &mut def, Duration::from_millis(1)),
        Some(CutsceneStepState::NoState)
    );
    assert_eq!(def.cur_index, 0);
}

#[test]
fn largest_index_without_timed_step_is_accepted() {
    let mut timers = CutSceneTimers::default();
    let mut def = CutSceneStateDef::default();
    def.cur_index = usize::MAX;
    assert_eq!(cutscene_state_system(&mut timers, &mut def, Duration::from_secs(1)), None);
    timers.cur_state = CutsceneStepState::InCutscene;
    assert_eq!(
        cutscene_state_system(&mut timers, &mut def, Duration::from_secs(4)),
        Some(CutsceneStepState::NoState)
    );
}

#[test]
fn entering_the_cutscene_plays_it_through() {
    let mut timers = CutSceneTimers::default();
    let mut def = CutSceneStateDef::default();
    def.cur_index = 1;
    on_before_cutscene(&mut timers, &mut def);
    assert_eq!(def.cur_index, 0);
    assert_eq!(timers.cur_state, CutsceneStepState::BeforeCutscene);
    assert_eq!(cutscene_state_system(&mut timers, &mut def, Duration::from_millis(1499)), None);
    assert_eq!(
        cutscene_state_system(&mut timers, &mut def, Duration::from_millis(1)),
        Some(CutsceneStepState::InCutscene)
    );
    assert_eq!(cutscene_state_system(&mut timers, &mut def, Duration::from_millis(3999)), None);
    assert_eq!(
        cutscene_state_system(&mut timers, &mut def, Duration::from_millis(1)),
        Some(CutsceneStepState::AfterCutscene)
    );
    assert_eq!(
        cutscene_state_system(&mut timers, &mut def, Duration::from_millis(500)),
        Some(CutsceneStepState::NoState)
    );
    // the second level's cutscene plays again from its start
    on_before_cutscene(&mut timers, &mut def);
    assert_eq!(
        cutscene_state_system(&mut timers, &mut def, Duration::from_millis(1500)),
        Some(CutsceneStepState::InCutscene)
    );
}
