//! A three-by-three, draughts-like two-player board game engine.
//!
//! One side (`Max`, marker `+1`) moves toward row 2, the other (`Min`,
//! marker `-1`) toward row 0. Pieces advance straight forward onto empty
//! squares or capture diagonally forward. The engine offers per-square
//! legality checks, enumeration of all legal actions, purely functional
//! state transitions, and terminal-state detection.

pub mod board;
pub mod game;
