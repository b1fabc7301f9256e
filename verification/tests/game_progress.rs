use fly_strike::game_state_plug::{bubbles_to_score, elapsed_time_update_system, on_leaderboard, Leaderboard};
use fly_strike::config::Score;
use fly_strike::config::{GameConfig, GameState, GameStateDef, LEVEL_COUNT};
use fly_strike::game_state_plug::{
    before_in_game_system, fireworks_step, game_over_system, in_game_system, on_auto_next_game_state_event,
    on_before_in_game, on_game_over, BeforeInGameTimer, GameTrigger, OverCutsceneTimer,
};
use bevy::time::{Timer, TimerMode};
use std::time::Duration;

#[test]
fn default_progress_goes_through_three_levels() {
    let mut config = GameConfig::default();
    let def = GameStateDef::default();
    assert_eq!(config.max_game_level, LEVEL_COUNT);
    let expected = [
        (0, 1, GameState::InGame),
        (0, 2, GameState::InCutscene),
        (1, 0, GameState::BeforeInGame),
        (1, 1, GameState::InGame),
        (1, 2, GameState::InCutscene),
        (2, 0, GameState::BeforeInGame),
        (2, 1, GameState::InGame),
        (2, 2, GameState::GameOver),
        (2, 3, GameState::Leaderboard),
        (2, 0, GameState::BeforeInGame),
        (2, 1, GameState::InGame),
    ];
    for (level, index, state) in expected {
        let next = on_auto_next_game_state_event(&mut config, &def);
        assert_eq!(next, state);
        assert_eq!(config.game_level, level);
        assert_eq!(config.game_level_index, index);
        assert_eq!(config.fireworks_count, 0);
    }
}

#[test]
fn last_level_ends_when_fewer_levels_are_played() {
    let mut config = GameConfig { game_level: 0, game_level_index: 2, max_game_level: 1, fireworks_count: 4 };
    let def = GameStateDef::default();
    let next = on_auto_next_game_state_event(&mut config, &def);
    assert_eq!(next, GameState::BeforeInGame);
    assert_eq!(config.game_level, 0);
    assert_eq!(config.game_level_index, 0);
    assert_eq!(config.fireworks_count, 4);
}

#[test]
fn custom_level_lists_are_followed() {
    let mut config = GameConfig { game_level: 0, game_level_index: 0, max_game_level: 3, fireworks_count: 0 };
    let def = GameStateDef {
        game_states: [
            vec![GameState::InGame],
            vec![GameState::Paused, GameState::Menu],
            vec![GameState::GameOver],
        ],
    };
    assert_eq!(on_auto_next_game_state_event(&mut config, &def), GameState::Paused);
    assert_eq!((config.game_level, config.game_level_index), (1, 0));
    assert_eq!(on_auto_next_game_state_event(&mut config, &def), GameState::Menu);
    assert_eq!(on_auto_next_game_state_event(&mut config, &def), GameState::GameOver);
    assert_eq!(on_auto_next_game_state_event(&mut config, &def), GameState::GameOver);
    assert_eq!((config.game_level, config.game_level_index), (2, 0));
}

#[test]
fn level_starts_after_the_pause() {
    let mut timer = BeforeInGameTimer(Timer::new(Duration::from_millis(1500), TimerMode::Once));
    on_before_in_game(&mut timer);
    assert!(before_in_game_system(&mut timer, Duration::from_millis(1000)).is_empty());
    let triggers = before_in_game_system(&mut timer, Duration::from_millis(500));
    assert_eq!(triggers, vec![GameTrigger::GameLevel, GameTrigger::NextLevelBoids, GameTrigger::AutoNextGameState]);
}

#[test]
fn play_frame_times_the_level_and_detects_clearing() {
    let config = GameConfig { game_level: 1, game_level_index: 1, max_game_level: 3, fireworks_count: 0 };
    let step = in_game_system(&config, 2);
    assert_eq!(step.timed_level, Some(1));
    assert!(!step.level_cleared);
    let step = in_game_system(&config, 0);
    assert!(step.level_cleared);
    let beyond = GameConfig { game_level: 3, game_level_index: 0, max_game_level: 3, fireworks_count: 0 };
    assert_eq!(in_game_system(&beyond, 1).timed_level, None);
}

#[test]
fn fireworks_decision_values() {
    let s = fireworks_step(true, 0);
    assert!(s.launch && s.sound && !s.advance);
    let s = fireworks_step(true, 1);
    assert!(s.launch && !s.sound && !s.advance);
    let s = fireworks_step(false, 2);
    assert!(!s.launch && !s.sound && !s.advance);
    let s = fireworks_step(true, 6);
    assert!(!s.launch && !s.sound && s.advance);
    let s = fireworks_step(false, 6);
    assert!(!s.launch && !s.advance);
}

#[test]
fn game_over_show_has_six_bursts_then_moves_on() {
    let mut timer = OverCutsceneTimer(Timer::new(Duration::from_millis(200), TimerMode::Once));
    let mut config = GameConfig { game_level: 2, game_level_index: 2, max_game_level: 3, fireworks_count: 5 };
    on_game_over(&mut timer, &mut config);
    assert_eq!(config.fireworks_count, 0);
    let mut launches = 0;
    let mut sounds = 0;
    let mut advanced_at = None;
    for frame in 0..40 {
        let step = game_over_system(&mut timer, &mut config, Duration::from_millis(100));
        if step.launch {
            launches += 1;
        }
        if step.sound {
            sounds += 1;
        }
        if step.advance && advanced_at.is_none() {
            advanced_at = Some(frame);
        }
    }
    assert_eq!(launches, 6);
    assert_eq!(sounds, 3);
    assert_eq!(config.fireworks_count, 6);
    assert_eq!(advanced_at, Some(13));
    assert_eq!(config.game_level, 2);
}

#[test]
fn time_display_shows_the_current_level() {
    for level in 0..3 {
        let config = GameConfig { game_level: level, game_level_index: 0, max_game_level: 3, fireworks_count: 0 };
        assert_eq!(elapsed_time_update_system(&config), Some(level));
    }
    let beyond = GameConfig { game_level: 3, game_level_index: 0, max_game_level: 5, fireworks_count: 0 };
    assert_eq!(elapsed_time_update_system(&beyond), None);
    let unplayed = GameConfig { game_level: 1, game_level_index: 0, max_game_level: 1, fireworks_count: 0 };
    assert_eq!(elapsed_time_update_system(&unplayed), None);
}

#[test]
fn each_bubble_scores_once() {
    assert_eq!(bubbles_to_score(&vec![]), Vec::<usize>::new());
    assert_eq!(bubbles_to_score(&vec![2, 0, 2, 1, 0]), vec![2, 0, 1]);
    assert_eq!(bubbles_to_score(&vec![4, 4, 4]), vec![4]);
}

#[test]
fn session_ranking_keeps_best_first() {
    let mut board = Leaderboard::new();
    assert_eq!(on_leaderboard(&mut board, &Score(50), 9_000), 0);
    assert_eq!(on_leaderboard(&mut board, &Score(80), 7_000), 0);
    assert_eq!(on_leaderboard(&mut board, &Score(50), 8_000), 2);
    assert_eq!(on_leaderboard(&mut board, &Score(10), 20_000), 3);
    let scores: Vec<(u32, u64)> = board.entries().iter().map(|e| (e.score, e.total_millis)).collect();
    assert_eq!(scores, vec![(80, 7_000), (50, 9_000), (50, 8_000), (10, 20_000)]);
}
