//! Game rules of Fly Strike: level progression, cutscene steps, fireworks,
//! menu decisions, cannon firing and animation frames, and scoring.
//! The engine side (rendering, input devices, sound, floating-point motion)
//! lives in the application crate that drives these functions every frame.

pub mod config;
pub mod timer;
pub mod game_state_plug;
pub mod custscene_public;
pub mod cutscene_plug;
pub mod player_plug;
pub mod cannon_plug;
pub mod cutscene_mobile_plug;
pub mod menu_plug;
pub mod score_plug;
pub mod score_pnl;
