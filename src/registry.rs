use crate::model::GridDensity;
use std::collections::HashMap;
use vstd::prelude::*;

verus! {

broadcast use vstd::std_specs::hash::group_hash_axioms;

/// The density grids of the loaded volumetric assets, keyed by asset id.
///
/// Only the resolution of each grid is held here: it sizes the dispatches.
pub struct GridRegistry {
    grids: HashMap<u64, GridDensity>,
}

impl View for GridRegistry {
    type V = Map<u64, GridDensity>;

    closed spec fn view(&self) -> Map<u64, GridDensity> {
        self.grids@
    }
}

impl GridRegistry {
    /// A registry with no assets.
    pub fn new() -> (r: GridRegistry)
        ensures
            r@ == Map::<u64, GridDensity>::empty(),
    {
        GridRegistry { grids: HashMap::new() }
    }

    /// Records (or replaces) the grid of `asset_id`.
    pub fn insert(&mut self, asset_id: u64, density: GridDensity)
        ensures
            final(self)@ == old(self)@.insert(asset_id, density),
    {
        self.grids.insert(asset_id, density);
    }

    /// Forgets the grid of `asset_id`, as when the asset is unloaded.
    pub fn remove(&mut self, asset_id: u64)
        ensures
            final(self)@ == old(self)@.remove(asset_id),
    {
        self.grids.remove(&asset_id);
    }

    /// The grid density of `asset_id`, if the asset is loaded.
    pub fn get(&self, asset_id: u64) -> (r: Option<GridDensity>)
        ensures
            r == (if self@.contains_key(asset_id) { Some(self@[asset_id]) } else { None }),
    {
        match self.grids.get(&asset_id) {
            Some(d) => Some(*d),
            None => None,
        }
    }
}

/// The bind group of each asset whose GPU buffers have been allocated.
pub struct BindingTable<G> {
    groups: HashMap<u64, G>,
}

impl<G> View for BindingTable<G> {
    type V = Map<u64, G>;

    closed spec fn view(&self) -> Map<u64, G> {
        self.groups@
    }
}

impl<G> BindingTable<G> {
    /// A table with no bind groups.
    pub fn new() -> (r: BindingTable<G>)
        ensures
            r@ == Map::<u64, G>::empty(),
    {
        BindingTable { groups: HashMap::new() }
    }

    /// Publishes the bind group of `asset_id`, replacing any earlier one.
    pub fn insert(&mut self, asset_id: u64, group: G)
        ensures
            final(self)@ == old(self)@.insert(asset_id, group),
    {
        self.groups.insert(asset_id, group);
    }

    /// Withdraws the bind group of `asset_id`.
    pub fn remove(&mut self, asset_id: u64)
        ensures
            final(self)@ == old(self)@.remove(asset_id),
    {
        self.groups.remove(&asset_id);
    }

    /// Whether `asset_id` has a bind group.
    pub fn contains(&self, asset_id: u64) -> (r: bool)
        ensures
            r == self@.contains_key(asset_id),
    {
        self.groups.contains_key(&asset_id)
    }

    /// The bind group of `asset_id`, if one was published.
    pub fn get(&self, asset_id: u64) -> (r: Option<&G>)
        ensures
            match r {
                Some(g) => self@.contains_key(asset_id) && *g == self@[asset_id],
                None => !self@.contains_key(asset_id),
            },
    {
        self.groups.get(&asset_id)
    }
}

} // verus!
