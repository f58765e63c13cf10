//! Rules for crafting structures.

pub mod workers;
