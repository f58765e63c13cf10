//! Storage of multiple items with a capacity.

use vstd::prelude::*;

verus! {

/// The fullness of an inventory.
#[derive(Clone, Copy, Debug, PartialEq, Eq, Structural, Hash)]
pub enum InventoryState {
    /// Fully empty.
    Empty,
    /// Neither empty nor full.
    Partial,
    /// Completely full.
    Full,
}

} // verus!
