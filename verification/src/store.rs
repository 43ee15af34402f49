//! The shared cache mapping resource keys to load states.

use vstd::prelude::*;

use vstd::hash_map::HashMapWithView;

use crate::keys::ResourceKey;
use crate::resource::Error;
use crate::resource::LoadErrorView;
use crate::resource::LoadStateView;
use crate::resource::ResourceState;

verus! {

broadcast use vstd::std_specs::hash::group_hash_axioms;

/// What a snapshot of `states` returns for the key `key`: the current state
/// if the key has an entry, and `Error(Unknown)` otherwise. A snapshot never
/// waits for a future state.
pub open spec fn snapshot_of(states: Map<u64, ResourceState>, key: u64) -> LoadStateView {
    if states.contains_key(key) {
        states[key]@
    } else {
        LoadStateView::Error(LoadErrorView::Unknown)
    }
}

/// Maps each issued key to the current state of its load.
///
/// Entries are written by the façade (`Loading`, synchronously inside
/// `request`) and by the dispatcher (the terminal state, once the load
/// completes); collaborators read them through snapshots.
pub struct ResourceStore {
    map: HashMapWithView<u64, ResourceState>,
}

impl View for ResourceStore {
    type V = Map<u64, ResourceState>;

    closed spec fn view(&self) -> Map<u64, ResourceState> {
        self.map@
    }
}

impl ResourceStore {
    /// Creates an empty store.
    pub fn new() -> (store: Self)
        ensures
            store@ == Map::<u64, ResourceState>::empty(),
    {
        ResourceStore { map: HashMapWithView::new() }
    }

    /// Overwrites the entry for `key` with `state`.
    ///
    /// The façade only calls this with `Loading` for a freshly issued key;
    /// the dispatcher only calls this with a terminal state for a key whose
    /// entry is still `Loading`.
    pub fn insert_or_update(&mut self, key: ResourceKey, state: ResourceState)
        ensures
            final(self)@ == old(self)@.insert(key@, state),
    {
        self.map.insert(key.raw(), state);
    }

    /// Returns true if `key` has an entry whose state is still `Loading`.
    pub fn is_loading(&self, key: ResourceKey) -> (r: bool)
        ensures
            r == (self@.contains_key(key@) && self@[key@] is Loading),
    {
        match self.map.get(&key.raw()) {
            Some(state) => matches!(state, ResourceState::Loading),
            None => false,
        }
    }

    /// Returns a copy of the current state for `key`, or `Error(Unknown)` if
    /// the key has no entry. Always returns immediately.
    pub fn snapshot(&self, key: ResourceKey) -> (state: ResourceState)
        ensures
            state@ == snapshot_of(self@, key@),
    {
        match self.map.get(&key.raw()) {
            Some(state) => state.clone(),
            None => ResourceState::Error(Error::Unknown),
        }
    }
}

} // verus!
