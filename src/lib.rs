//! Falling-block puzzle engine: piece geometry and rotation, the playfield
//! with its collision and line-clear rules, and the per-tick game state machine.

pub mod shape;
pub mod piece;
pub mod board;
pub mod game;
pub mod screen;
