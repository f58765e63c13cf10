//! Everything to do with items and their storage.

pub mod inventory;
