//! A verified rule engine for 3-by-3 tic-tac-toe: board and win/draw
//! detection, a tiered computer opponent, and a tick-driven session
//! controller with score keeping.

pub mod ai;
pub mod board;
pub mod game;
pub mod session;
