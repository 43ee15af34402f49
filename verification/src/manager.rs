//! The resource manager façade: issue a key, record `Loading`, enqueue the
//! work, and let the dispatcher write the terminal state back exactly once.

use vstd::prelude::*;

use crate::keys::KeyIssuer;
use crate::keys::ResourceKey;
use crate::resource::Error;
use crate::resource::LoadErrorView;
use crate::resource::LoadStateView;
use crate::resource::Resource;
use crate::resource::ResourceState;
use crate::store::snapshot_of;
use crate::store::ResourceStore;

verus! {

/// True of the states a key never leaves once it has reached one.
pub open spec fn is_terminal(state: ResourceState) -> bool {
    state is Loaded || state is Error
}

/// The terminal state a load outcome is recorded as.
pub open spec fn terminal_of(outcome: Result<Vec<u8>, Error>) -> ResourceState {
    match outcome {
        Ok(data) => ResourceState::Loaded(data),
        Err(e) => ResourceState::Error(e),
    }
}

/// The store contents after the dispatcher reports `outcome` for `key`: the
/// terminal state is written only over a `Loading` entry; a terminal or
/// absent entry is left untouched.
pub open spec fn complete_post(
    states: Map<u64, ResourceState>,
    key: u64,
    outcome: Result<Vec<u8>, Error>,
) -> Map<u64, ResourceState> {
    if states.contains_key(key) && states[key] is Loading {
        states.insert(key, terminal_of(outcome))
    } else {
        states
    }
}

/// Resource manager handles loading external resources and caching them for
/// reuse.
///
/// `request` and `get` are the collaborator-facing API; `next_request` and
/// `complete` are the dispatcher's side of the protocol: a background worker
/// takes a pending descriptor, performs the load outside this crate, and
/// hands the outcome back to `complete`.
pub struct ResourceManager {
    issuer: KeyIssuer,
    store: ResourceStore,
    pending: Vec<Resource>,
}

impl ResourceManager {
    /// The current store contents, by raw key value.
    pub closed spec fn states(&self) -> Map<u64, ResourceState> {
        self.store@
    }

    /// The queue of requested descriptors the dispatcher has not taken yet,
    /// oldest first.
    pub closed spec fn pending(&self) -> Seq<Resource> {
        self.pending@
    }

    /// The raw value the next issued key will carry.
    pub closed spec fn next_key(&self) -> u64 {
        self.issuer.next()
    }

    /// Every store entry belongs to an issued key, and every pending
    /// descriptor carries one.
    pub closed spec fn wf(&self) -> bool {
        &&& self.issuer.wf()
        &&& forall|k: u64| #[trigger] self.store@.contains_key(k) ==> k < self.issuer.next()
        &&& forall|i: int|
            0 <= i < self.pending@.len() ==> (#[trigger] self.pending@[i])@.key is Some
    }

    /// Creates a new [`ResourceManager`] with an empty store and no pending
    /// requests.
    pub fn new() -> (manager: Self)
        ensures
            manager.wf(),
            manager.states() == Map::<u64, ResourceState>::empty(),
            manager.pending() == Seq::<Resource>::empty(),
            manager.next_key() == 0,
    {
        ResourceManager {
            issuer: KeyIssuer::new(),
            store: ResourceStore::new(),
            pending: Vec::new(),
        }
    }

    /// Requests a resource to be loaded.
    ///
    /// If the resource already carries a key the call is a no-op. Otherwise a
    /// fresh key is issued and attached, the store entry is set to `Loading`
    /// before the work is enqueued, and the descriptor joins the pending
    /// queue for the dispatcher.
    pub fn request(&mut self, res: &mut Resource)
        requires
            old(self).wf(),
            old(self).next_key() < u64::MAX,
        ensures
            final(self).wf(),
            old(res)@.key is Some ==> *final(self) == *old(self) && *final(res) == *old(res),
            old(res)@.key is None ==> {
                &&& final(res)@.key == Some(old(self).next_key())
                &&& final(res)@.path == old(res)@.path
                &&& final(self).next_key() == old(self).next_key() + 1
                &&& final(self).states() == old(self).states().insert(
                    old(self).next_key(),
                    ResourceState::Loading,
                )
                &&& !old(self).states().contains_key(old(self).next_key())
                &&& final(self).pending() == old(self).pending().push(*final(res))
            },
            // the request only ever adds an entry for a fresh key
            forall|k: u64| #[trigger]
                old(self).states().contains_key(k) ==> final(self).states().contains_key(k)
                    && final(self).states()[k] == old(self).states()[k],
    {
        if !res.should_request() {
            return ;
        }

        let key = self.issuer.issue();
        res.attach_key(key);
        self.store.insert_or_update(key, ResourceState::Loading);
        self.pending.push(res.clone());
    }

    /// Returns a copy of the current state for `key`, or `Error(Unknown)`
    /// for a key that has no entry. Never blocks.
    pub fn get(&self, key: ResourceKey) -> (state: ResourceState)
        ensures
            state@ == snapshot_of(self.states(), key@),
    {
        self.store.snapshot(key)
    }

    /// Hands the oldest pending descriptor to the dispatcher, if any.
    pub fn next_request(&mut self) -> (item: Option<Resource>)
        requires
            old(self).wf(),
        ensures
            final(self).wf(),
            final(self).states() == old(self).states(),
            final(self).next_key() == old(self).next_key(),
            match item {
                Some(res) => {
                    &&& old(self).pending().len() > 0
                    &&& res == old(self).pending()[0]
                    &&& res@.key is Some
                    &&& final(self).pending() == old(self).pending().drop_first()
                },
                None => {
                    &&& old(self).pending().len() == 0
                    &&& final(self).pending() == old(self).pending()
                },
            },
    {
        if self.pending.len() == 0 {
            None
        } else {
            Some(self.pending.remove(0))
        }
    }

    /// Records the outcome of a finished load.
    ///
    /// The terminal state is written only if the entry for `key` is still
    /// `Loading`; an entry that is already terminal, or a key with no entry,
    /// is left untouched, so a key's terminal state is written exactly once.
    pub fn complete(&mut self, key: ResourceKey, outcome: Result<Vec<u8>, Error>)
        requires
            old(self).wf(),
        ensures
            final(self).wf(),
            final(self).states() == complete_post(old(self).states(), key@, outcome),
            final(self).next_key() == old(self).next_key(),
            final(self).pending() == old(self).pending(),
    {
        if self.store.is_loading(key) {
            let state = match outcome {
                Ok(data) => ResourceState::Loaded(data),
                Err(e) => ResourceState::Error(e),
            };
            self.store.insert_or_update(key, state);
        }
    }

    /// Returns true while the issuer can still hand out a fresh key.
    pub fn has_key_capacity(&self) -> (r: bool)
        ensures
            r == (self.next_key() < u64::MAX),
    {
        self.issuer.has_capacity()
    }

    /// How many requested descriptors the dispatcher has not taken yet.
    pub fn pending_count(&self) -> (n: usize)
        ensures
            n == self.pending().len(),
    {
        self.pending.len()
    }
}

/// Immediately after `request` writes `Loading` for a fresh key, a snapshot
/// of that key observes `Loading` — never an unknown key.
pub proof fn lemma_immediate_loading(states: Map<u64, ResourceState>, key: u64)
    ensures
        snapshot_of(states.insert(key, ResourceState::Loading), key) == LoadStateView::Loading,
{
}

/// A key whose entry is terminal keeps its exact entry across any later
/// `complete`, whatever key and outcome that call carries.
pub proof fn lemma_terminal_write_once(
    states: Map<u64, ResourceState>,
    key: u64,
    other: u64,
    outcome: Result<Vec<u8>, Error>,
)
    requires
        states.contains_key(key),
        is_terminal(states[key]),
    ensures
        complete_post(states, other, outcome).contains_key(key),
        complete_post(states, other, outcome)[key] == states[key],
{
}

/// A well-formed manager only ever issues keys for new store entries, so a
/// `request` leaves every existing entry exactly as it was.
pub proof fn lemma_request_preserves_entries(manager: &ResourceManager, key: u64)
    requires
        manager.wf(),
        manager.states().contains_key(key),
    ensures
        manager.states().insert(manager.next_key(), ResourceState::Loading)[key]
            == manager.states()[key],
{
}

/// Completing a load with `Ok(data)` over a `Loading` entry makes snapshots
/// of that key return exactly `Loaded(data)` from then on.
pub proof fn lemma_loaded_roundtrip(states: Map<u64, ResourceState>, key: u64, data: Vec<u8>)
    requires
        states.contains_key(key),
        states[key] is Loading,
    ensures
        snapshot_of(complete_post(states, key, Ok(data)), key) == LoadStateView::Loaded(data@),
{
}

/// Completing a load with an error over a `Loading` entry makes snapshots of
/// that key return exactly that error from then on.
pub proof fn lemma_error_mapped(states: Map<u64, ResourceState>, key: u64, e: Error)
    requires
        states.contains_key(key),
        states[key] is Loading,
    ensures
        snapshot_of(complete_post(states, key, Err(e)), key) == LoadStateView::Error(e@),
{
}

/// A key that was never issued has no store entry, so `get` answers
/// `Error(Unknown)` for it.
pub proof fn lemma_unknown_key(manager: &ResourceManager, key: u64)
    requires
        manager.wf(),
        key >= manager.next_key(),
    ensures
        snapshot_of(manager.states(), key) == LoadStateView::Error(LoadErrorView::Unknown),
{
}

/// Keys settle independently: completing one key never changes what a
/// snapshot of a different key observes, and two completions for distinct
/// keys land in the same store whichever finishes first.
pub proof fn lemma_cross_key_isolation(
    states: Map<u64, ResourceState>,
    key1: u64,
    outcome1: Result<Vec<u8>, Error>,
    key2: u64,
    outcome2: Result<Vec<u8>, Error>,
)
    requires
        key1 != key2,
    ensures
        snapshot_of(complete_post(states, key2, outcome2), key1) == snapshot_of(states, key1),
        complete_post(complete_post(states, key1, outcome1), key2, outcome2) == complete_post(
            complete_post(states, key2, outcome2),
            key1,
            outcome1,
        ),
{
    let left = complete_post(complete_post(states, key1, outcome1), key2, outcome2);
    let right = complete_post(complete_post(states, key2, outcome2), key1, outcome1);
    assert(left =~= right);
}

} // verus!
