//! Deciding what is drawn.

pub mod terrain;
