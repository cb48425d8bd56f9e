//! The rules of a two-player paddle-and-ball game, as a verified state machine.
//!
//! The host keeps the geometry of the arena, moves the boxes and draws them.
//! This crate decides: which key drives which paddle, how far a paddle steps,
//! when the ball bounces or is struck, who scores and what the score line reads.

pub mod frame;
pub mod game;
pub mod keys;
pub mod laws;
pub mod rules;
pub mod text;

pub use game::{collide, respond_to_keyboard, Apart, Game, Goal, Motion, Outcome, Player, Seen, Steps};
pub use frame::{Color, Paint, Shape};
pub use keys::{code_of, key_of, Key, Side};
