use vstd::prelude::*;
use bevy::time::Timer;

verus! {

/// Number of flying bubbles spawned for every level.
pub const FLY_COUNT: usize = 3;
/// Height in pixels of one frame of the cannon sprite sheet.
pub const CANNON_IMAGE_HEIGHT: u32 = 200;
/// First frame of the cannon animation.
pub const CANNON_FIRST_FRAME: usize = 0;
/// Last frame of the cannon animation.
pub const CANNON_LAST_FRAME: usize = 2;
/// Frames per second of the cannon animation.
pub const CANNON_FPS: u8 = 9;
/// Interval between two bullets, in milliseconds.
pub const BULLET_TIME_MILLIS: u64 = 1000;
/// Refresh period of the elapsed-time display, in milliseconds.
pub const DURATION_SPAN_MILLIS: u64 = 100;
/// Refresh period of the FPS display, in milliseconds.
pub const FPS_TIME_MILLIS: u64 = 1000;
/// Pause before a level starts, in milliseconds.
pub const BEFORE_IN_GAME_MILLIS: u64 = 1500;
/// Length of the step before a cutscene, in milliseconds.
pub const BEFORE_CUTSCENE_MILLIS: u64 = 1500;
/// Length of a cutscene, in milliseconds.
pub const IN_CUTSCENE_MILLIS: u64 = 4000;
/// Length of the step after a cutscene, in milliseconds.
pub const AFTER_CUTSCENE_MILLIS: u64 = 500;
/// Interval between two fireworks bursts at the end of the game, in milliseconds.
pub const OVER_CUTSCENE_MILLIS: u64 = 200;
/// Number of fireworks bursts launched when the game is over.
pub const FIREWORKS_BURSTS: usize = 6;
/// Number of levels of the game.
pub const LEVEL_COUNT: usize = 3;

/// The state of the game as a whole.
#[derive(Clone, Copy, Debug, PartialEq, Eq, Hash, Structural)]
pub enum GameState {
    NoState,
    BeforeInGame,
    InGame,
    InCutscene,
    Paused,
    Leaderboard,
    GameOver,
    Menu,
}

/// The steps of the cutscene played between levels and at the end of the game.
#[derive(Clone, Copy, Debug, PartialEq, Eq, Hash, Structural)]
pub enum CutsceneStepState {
    NoState,
    BeforeCutscene,
    InCutscene,
    AfterCutscene,
    InGameOverCutscene,
}

/// Which menu screen is shown; `NoMenu` while the game is played.
#[derive(Clone, Copy, Debug, PartialEq, Eq, Hash, Structural)]
pub enum MenuState {
    ManMenu,
    AboutMenu,
    NoMenu,
}

/// What a menu button does when it is pressed.
#[derive(Clone, Copy, Debug, PartialEq, Eq, Hash, Structural)]
pub enum MenuAction {
    MainMenu,
    About,
    Exit,
    Back(MenuState),
}

/// Progress through the levels: the current level, the position inside the
/// level's list of states, the number of levels, and the fireworks counter.
pub struct GameConfig {
    pub game_level: usize,
    pub game_level_index: usize,
    pub max_game_level: usize,
    pub fireworks_count: usize,
}

impl GameConfig {
    /// The progress at the start of the game: first level, first state, three levels.
    pub fn default() -> (c: GameConfig)
        ensures
            c.game_level == 0,
            c.game_level_index == 0,
            c.max_game_level == LEVEL_COUNT,
            c.fireworks_count == 0,
    {
        GameConfig { game_level: 0, game_level_index: 0, max_game_level: LEVEL_COUNT, fireworks_count: 0 }
    }
}

/// The list of states that each of the three levels goes through.
pub struct GameStateDef {
    pub game_states: [Vec<GameState>; 3],
}

/// The states of each level at the start of the game.
pub open spec fn default_level_states() -> Seq<Seq<GameState>> {
    seq![
        seq![GameState::BeforeInGame, GameState::InGame, GameState::InCutscene],
        seq![GameState::BeforeInGame, GameState::InGame, GameState::InCutscene],
        seq![GameState::BeforeInGame, GameState::InGame, GameState::GameOver, GameState::Leaderboard],
    ]
}

impl GameStateDef {
    /// The states of each level, as sequences.
    pub open spec fn levels(&self) -> Seq<Seq<GameState>> {
        self.game_states@.map_values(|v: Vec<GameState>| v@)
    }

    /// The two first levels end with a cutscene, the last with the game over
    /// screen and the leaderboard.
    pub fn default() -> (d: GameStateDef)
        ensures
            d.levels() == default_level_states(),
    {
        let d = GameStateDef {
            game_states: [
                vec![GameState::BeforeInGame, GameState::InGame, GameState::InCutscene],
                vec![GameState::BeforeInGame, GameState::InGame, GameState::InCutscene],
                vec![GameState::BeforeInGame, GameState::InGame, GameState::GameOver, GameState::Leaderboard],
            ],
        };
        assert(d.levels() =~= default_level_states());
        d
    }
}

/// The player's score: the points of every bubble hit, more for faster hits
/// (see `score_plug::hit_points`).
pub struct Score(pub u32);

/// The timer that spaces out the bullets.
pub struct BulletTimer(pub Timer);

}
