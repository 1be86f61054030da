//! A verified engine for tic-tac-toe on the fixed 3×3 board.

pub mod game;
pub mod session;
