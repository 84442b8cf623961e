//! Rules engine of the RUSTOBLAST SMASH arcade shooter: spawn rolls, scoring,
//! lives, shields, sidekick formation, per-frame timers and the menu state
//! machines. Drawing, audio, input polling and floating-point motion live in
//! the application crate, which drives these rules once per frame.

pub mod constants;
pub mod enemy;
pub mod powerup;
pub mod random;
pub mod spawn;
pub mod player;
pub mod sidekick;
pub mod game;
pub mod menu;
pub mod pause;
pub mod options;
pub mod game_over;
pub mod windowing;
pub mod playlist;
pub mod flow;
