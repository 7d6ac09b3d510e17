//! A draughts-like board driven by a cursor: the grid of cells with its
//! movement rule, and the turn state machine that maps key presses to
//! cursor, selection and board updates.

pub mod board;
pub mod game;
pub mod paint;
