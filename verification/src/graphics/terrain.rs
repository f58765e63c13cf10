//! Which litter piles are on show on the terrain.
//!
//! Every tile may show one pile for the litter on its ground and one for the
//! litter floating on its water. A pile is a scene that the engine spawned; it
//! is remembered with the fullness it was spawned for, and replaced when the
//! fullness of the litter changes. This module decides what to despawn and
//! what to spawn; the caller does the spawning and reports the new piles.

use crate::items::inventory::InventoryState;
use bevy::utils::HashMap;
use vstd::prelude::*;

verus! {

/// The engine's hash map from a tile to the pile on show there: the fullness
/// the pile was spawned for, and the 64 bits of the pile's entity handle.
///
/// The map is opaque to the verifier; everything known about it is said by
/// [`pile_entries`] and the contracts of the functions below that touch it.
#[verifier::external_body]
#[derive(Debug)]
pub struct PileTable {
    map: HashMap<(i32, i32), (InventoryState, u64)>,
}

/// The key-value pairs that a [`PileTable`] holds.
pub uninterp spec fn pile_entries(table: PileTable) -> Map<(i32, i32), (InventoryState, u64)>;

/// Calls `hashbrown::HashMap::default`, which creates an empty map: the new
/// table holds no entry.
#[verifier::external_body]
fn pile_table_new() -> (table: PileTable)
    ensures
        pile_entries(table) == (Map::<(i32, i32), (InventoryState, u64)>::empty()),
{
    PileTable { map: HashMap::default() }
}

/// Calls `hashbrown::HashMap::get`, which returns the value stored under the
/// key, or nothing if the key is not in the map. The value is copied out.
#[verifier::external_body]
fn pile_table_get(table: &PileTable, tile: (i32, i32)) -> (pile: Option<(InventoryState, u64)>)
    ensures
        pile == (if pile_entries(*table).contains_key(tile) {
            Some(pile_entries(*table)[tile])
        } else {
            None
        }),
{
    table.map.get(&tile).copied()
}

/// Calls `hashbrown::HashMap::insert`, which stores the value under the key,
/// replacing the value of a key that is already present and leaving every
/// other entry alone. The previous value that the call returns is dropped.
#[verifier::external_body]
fn pile_table_insert(table: &mut PileTable, tile: (i32, i32), pile: (InventoryState, u64))
    ensures
        pile_entries(*final(table)) == pile_entries(*old(table)).insert(tile, pile),
{
    table.map.insert(tile, pile);
}

/// Calls `hashbrown::HashMap::remove`, which takes the key and its value out
/// of the map if the key is present and leaves every other entry alone. The
/// removed value that the call returns is dropped.
#[verifier::external_body]
fn pile_table_remove(table: &mut PileTable, tile: (i32, i32))
    ensures
        pile_entries(*final(table)) == pile_entries(*old(table)).remove(tile),
{
    table.map.remove(&tile);
}

/// The tile has a pile on show in `piles`, spawned for another fullness than
/// `state`.
pub open spec fn outdated(
    piles: Map<(i32, i32), (InventoryState, u64)>,
    tile: (i32, i32),
    state: InventoryState,
) -> bool {
    piles.contains_key(tile) && piles[tile].0 != state
}

/// The tile has a pile on show in `piles`, spawned for the fullness `state`.
pub open spec fn up_to_date(
    piles: Map<(i32, i32), (InventoryState, u64)>,
    tile: (i32, i32),
    state: InventoryState,
) -> bool {
    piles.contains_key(tile) && piles[tile].0 == state
}

/// What is to be done about the piles of one tile.
#[derive(Clone, Copy, Debug, PartialEq, Eq, Structural)]
pub struct PileUpdate {
    /// The ground pile to despawn, if any
    pub despawn_ground: Option<u64>,
    /// The floating pile to despawn, if any
    pub despawn_floating: Option<u64>,
    /// Is a new ground pile to be spawned?
    pub spawn_ground: bool,
    /// Is a new floating pile to be spawned?
    pub spawn_floating: bool,
}

/// Is the floating pile of a tile looked at? Only where the ground pile on
/// show, if there is one, was outdated: a tile whose ground pile is up to date
/// is left as it is.
pub open spec fn reaches_floating(
    ground_piles: Map<(i32, i32), (InventoryState, u64)>,
    tile: (i32, i32),
    ground: InventoryState,
) -> bool {
    !up_to_date(ground_piles, tile, ground)
}

/// Are new piles spawned on a tile? Only where neither the ground pile nor the
/// floating pile on show was up to date.
pub open spec fn reaches_spawning(
    ground_piles: Map<(i32, i32), (InventoryState, u64)>,
    floating_piles: Map<(i32, i32), (InventoryState, u64)>,
    tile: (i32, i32),
    ground: InventoryState,
    floating: InventoryState,
) -> bool {
    reaches_floating(ground_piles, tile, ground) && !up_to_date(floating_piles, tile, floating)
}

/// What is to be done about the piles of `tile`, given the piles on show and
/// the fullness of the litter on its ground and of the litter floating on it.
///
/// An outdated ground pile is despawned. If the ground pile was not up to
/// date, an outdated floating pile is despawned too. If neither pile was up to
/// date, a new pile is spawned for each kind of litter that is not empty.
pub open spec fn pile_update(
    ground_piles: Map<(i32, i32), (InventoryState, u64)>,
    floating_piles: Map<(i32, i32), (InventoryState, u64)>,
    tile: (i32, i32),
    ground: InventoryState,
    floating: InventoryState,
) -> PileUpdate {
    PileUpdate {
        despawn_ground: if outdated(ground_piles, tile, ground) {
            Some(ground_piles[tile].1)
        } else {
            None
        },
        despawn_floating: if reaches_floating(ground_piles, tile, ground) && outdated(
            floating_piles,
            tile,
            floating,
        ) {
            Some(floating_piles[tile].1)
        } else {
            None
        },
        spawn_ground: reaches_spawning(ground_piles, floating_piles, tile, ground, floating)
            && ground != InventoryState::Empty,
        spawn_floating: reaches_spawning(ground_piles, floating_piles, tile, ground, floating)
            && floating != InventoryState::Empty,
    }
}

/// `listed` names each tile of `piles` once, with the entity of its pile.
pub open spec fn lists_piles(
    piles: Map<(i32, i32), (InventoryState, u64)>,
    listed: Seq<((i32, i32), u64)>,
) -> bool {
    &&& forall|i: int, j: int|
        0 <= i < j < listed.len() ==> (#[trigger] listed[i]).0 != (#[trigger] listed[j]).0
    &&& forall|i: int|
        0 <= i < listed.len() ==> piles.contains_key((#[trigger] listed[i]).0) && piles[listed[i].0].1
            == listed[i].1
    &&& forall|tile: (i32, i32)| #[trigger]
        piles.contains_key(tile) ==> exists|i: int|
            0 <= i < listed.len() && (#[trigger] listed[i]).0 == tile
}

/// Calls `hashbrown::HashMap::iter`, an iterator that visits every entry of
/// the map once, in an order of its own choosing, and copies the key and the
/// entity of each entry it yields into a vector.
#[verifier::external_body]
fn pile_table_list(table: &PileTable) -> (listed: Vec<((i32, i32), u64)>)
    ensures
        lists_piles(pile_entries(*table), listed@),
{
    table.map.iter().map(|(tile, pile)| (*tile, pile.1)).collect()
}

/// A simple cache of the current litter piles.
#[derive(Debug)]
pub struct LitterPiles {
    /// The piles on show for litter on the ground
    ground: PileTable,
    /// The piles on show for floating litter
    floating: PileTable,
}

impl LitterPiles {
    /// The ground piles on show: for each tile that has one, the fullness it
    /// was spawned for and its entity.
    pub closed spec fn ground_piles(&self) -> Map<(i32, i32), (InventoryState, u64)> {
        pile_entries(self.ground)
    }

    /// The floating piles on show: for each tile that has one, the fullness
    /// it was spawned for and its entity.
    pub closed spec fn floating_piles(&self) -> Map<(i32, i32), (InventoryState, u64)> {
        pile_entries(self.floating)
    }

    /// No piles on show.
    pub fn new() -> (piles: Self)
        ensures
            piles.ground_piles() == (Map::<(i32, i32), (InventoryState, u64)>::empty()),
            piles.floating_piles() == (Map::<(i32, i32), (InventoryState, u64)>::empty()),
    {
        Self { ground: pile_table_new(), floating: pile_table_new() }
    }

    /// Clean up any old models of `tile`, whose litter is now `ground` full on
    /// the ground and `floating` full on the water, and say what the caller
    /// has to despawn and to spawn.
    ///
    /// A pile that is to be despawned is forgotten here. A pile that the
    /// caller spawns is reported with [`LitterPiles::show_ground`] or
    /// [`LitterPiles::show_floating`].
    pub fn clean_up(
        &mut self,
        tile: (i32, i32),
        ground: InventoryState,
        floating: InventoryState,
    ) -> (update: PileUpdate)
        ensures
            update == pile_update(
                old(self).ground_piles(),
                old(self).floating_piles(),
                tile,
                ground,
                floating,
            ),
            final(self).ground_piles() == (if update.despawn_ground.is_some() {
                old(self).ground_piles().remove(tile)
            } else {
                old(self).ground_piles()
            }),
            final(self).floating_piles() == (if update.despawn_floating.is_some() {
                old(self).floating_piles().remove(tile)
            } else {
                old(self).floating_piles()
            }),
    {
        let mut update = PileUpdate {
            despawn_ground: None,
            despawn_floating: None,
            spawn_ground: false,
            spawn_floating: false,
        };
        if let Some((previous, entity)) = pile_table_get(&self.ground, tile) {
            // Only despawn if the inventory state has changed.
            if previous != ground {
                update.despawn_ground = Some(entity);
                pile_table_remove(&mut self.ground, tile);
            } else {
                return update;
            }
        }
        if let Some((previous, entity)) = pile_table_get(&self.floating, tile) {
            // Only despawn if the inventory state has changed.
            if previous != floating {
                update.despawn_floating = Some(entity);
                pile_table_remove(&mut self.floating, tile);
            } else {
                return update;
            }
        }
        update.spawn_ground = ground != InventoryState::Empty;
        update.spawn_floating = floating != InventoryState::Empty;
        update
    }

    /// Remembers the ground pile `entity` that was spawned on `tile` for
    /// litter that is `state` full.
    pub fn show_ground(&mut self, tile: (i32, i32), state: InventoryState, entity: u64)
        ensures
            final(self).ground_piles() == old(self).ground_piles().insert(tile, (state, entity)),
            final(self).floating_piles() == old(self).floating_piles(),
    {
        pile_table_insert(&mut self.ground, tile, (state, entity));
    }

    /// Remembers the floating pile `entity` that was spawned on `tile` for
    /// litter that is `state` full.
    pub fn show_floating(&mut self, tile: (i32, i32), state: InventoryState, entity: u64)
        ensures
            final(self).floating_piles() == old(self).floating_piles().insert(tile, (state, entity)),
            final(self).ground_piles() == old(self).ground_piles(),
    {
        pile_table_insert(&mut self.floating, tile, (state, entity));
    }

    /// The floating piles on show, each with its tile, in no particular
    /// order: the piles whose height follows the water.
    pub fn floating(&self) -> (listed: Vec<((i32, i32), u64)>)
        ensures
            lists_piles(self.floating_piles(), listed@),
    {
        pile_table_list(&self.floating)
    }
}

} // verus!
