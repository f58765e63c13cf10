//! Verified bookkeeping for a colony simulation: which workers help at a
//! crafting structure, and which litter piles are on show on each tile.

pub mod crafting;
pub mod graphics;
pub mod items;
