//! A keyboard-driven task board: projects hold sections, sections hold tasks.
//! This crate holds the board's data and every rule that changes it; the
//! window, the key reading and the file on disk live around it.

pub mod model;
pub mod board;
pub mod text;
pub mod laws;
pub mod behaviour;
