//! The per-tick integration points the collaborator's scheduler drives: one
//! pass that requests every descriptor still needing a load, and one pass
//! that hands loaded bytes out for parsing.

use vstd::prelude::*;

use crate::manager::ResourceManager;
use crate::resource::LoadStateView;
use crate::resource::Resource;
use crate::resource::ResourceState;
use crate::store::snapshot_of;

verus! {

/// Requests the resource if it still needs a load; a descriptor that already
/// carries a key is left alone, as is the manager.
pub fn request_resource(manager: &mut ResourceManager, resource: &mut Resource)
    requires
        old(manager).wf(),
        old(manager).next_key() < u64::MAX,
    ensures
        final(manager).wf(),
        old(resource)@.key is Some ==> *final(manager) == *old(manager) && *final(resource)
            == *old(resource),
        old(resource)@.key is None ==> {
            &&& final(resource)@.key == Some(old(manager).next_key())
            &&& final(resource)@.path == old(resource)@.path
            &&& final(manager).next_key() == old(manager).next_key() + 1
            &&& final(manager).states() == old(manager).states().insert(
                old(manager).next_key(),
                ResourceState::Loading,
            )
            &&& final(manager).pending() == old(manager).pending().push(*final(resource))
        },
        // the request only ever adds an entry for a fresh key
        forall|k: u64| #[trigger]
            old(manager).states().contains_key(k) ==> final(manager).states().contains_key(k)
                && final(manager).states()[k] == old(manager).states()[k],
{
    if !resource.should_request() {
        return ;
    }

    manager.request(resource);
}

/// Returns the loaded bytes for a resource whose load has finished, to be
/// handed to a domain parser; returns nothing for a resource that has no key
/// yet or whose entry is not `Loaded`.
pub fn bind_mesh(manager: &ResourceManager, resource: &Resource) -> (data: Option<Vec<u8>>)
    ensures
        match data {
            Some(bytes) => {
                &&& resource@.key is Some
                &&& snapshot_of(manager.states(), resource@.key.unwrap())
                    == LoadStateView::Loaded(bytes@)
            },
            None => resource@.key is None || !(snapshot_of(
                manager.states(),
                resource@.key.unwrap(),
            ) is Loaded),
        },
{
    if resource.should_request() {
        return None;
    }

    let key = match resource.key() {
        Some(key) => key,
        None => { return None },
    };

    match manager.get(key) {
        ResourceState::Loaded(data) => Some(data),
        _ => None,
    }
}

/// Runs one scheduler tick over the descriptor records: first the request
/// pass, which issues a key and a `Loading` entry for every record that needs
/// one, then the bind pass, which collects the loaded bytes of every record
/// whose load has finished, in record order.
pub fn system(manager: &mut ResourceManager, records: &mut Vec<Resource>) -> (bound: Vec<
    Option<Vec<u8>>,
>)
    requires
        old(manager).wf(),
        old(manager).next_key() + old(records)@.len() <= u64::MAX,
    ensures
        final(manager).wf(),
        final(records)@.len() == old(records)@.len(),
        bound@.len() == old(records)@.len(),
        old(manager).next_key() <= final(manager).next_key() <= old(manager).next_key() + old(
            records,
        )@.len(),
        // every record ends up requested; one that already carried a key is untouched
        forall|i: int|
            0 <= i < old(records)@.len() ==> (#[trigger] final(records)@[i])@.key is Some,
        forall|i: int|
            0 <= i < old(records)@.len() && old(records)@[i]@.key is Some ==> final(records)@[i]
                == old(records)@[i],
        forall|i: int|
            0 <= i < old(records)@.len() ==> (#[trigger] final(records)@[i])@.path == old(
                records,
            )@[i]@.path,
        // entries that existed before the tick are exactly preserved
        forall|k: u64| #[trigger]
            old(manager).states().contains_key(k) ==> final(manager).states().contains_key(k)
                && final(manager).states()[k] == old(manager).states()[k],
        // the tick only appends to the pending queue, keeping its order
        final(manager).pending().len() >= old(manager).pending().len(),
        final(manager).pending().subrange(0, old(manager).pending().len() as int) == old(
            manager,
        ).pending(),
        // a record requested this tick observes `Loading` under its new key
        forall|i: int|
            0 <= i < old(records)@.len() && old(records)@[i]@.key is None ==> {
                let k = (#[trigger] final(records)@[i])@.key.unwrap();
                &&& k >= old(manager).next_key()
                &&& final(manager).states().contains_key(k)
                &&& final(manager).states()[k] is Loading
            },
        // the bind pass reports exactly the loads that have finished
        forall|i: int|
            0 <= i < old(records)@.len() ==> match #[trigger] bound@[i] {
                Some(bytes) => old(records)@[i]@.key is Some && snapshot_of(
                    final(manager).states(),
                    final(records)@[i]@.key.unwrap(),
                ) == LoadStateView::Loaded(bytes@),
                None => old(records)@[i]@.key is None || !(snapshot_of(
                    final(manager).states(),
                    final(records)@[i]@.key.unwrap(),
                ) is Loaded),
            },
{
    let ghost pre_states = manager.states();
    let ghost pre_next = manager.next_key();
    let ghost pre_pending = manager.pending();
    let ghost pre_records = records@;

    let mut updated: Vec<Resource> = Vec::new();
    let mut i: usize = 0;
    while i < records.len()
        invariant
            manager.wf(),
            i <= records.len(),
            records@ == pre_records,
            updated@.len() == i,
            pre_next <= manager.next_key() <= pre_next + i,
            manager.next_key() + (records@.len() - i) <= u64::MAX,
            forall|k: u64| #[trigger]
                pre_states.contains_key(k) ==> manager.states().contains_key(k)
                    && manager.states()[k] == pre_states[k],
            manager.pending().len() >= pre_pending.len(),
            manager.pending().subrange(0, pre_pending.len() as int) == pre_pending,
            forall|j: int| 0 <= j < i ==> (#[trigger] updated@[j])@.key is Some,
            forall|j: int|
                0 <= j < i && pre_records[j]@.key is Some ==> updated@[j] == pre_records[j],
            forall|j: int|
                0 <= j < i ==> (#[trigger] updated@[j])@.path == pre_records[j]@.path,
            forall|j: int|
                0 <= j < i && pre_records[j]@.key is None ==> {
                    let k = (#[trigger] updated@[j])@.key.unwrap();
                    &&& k >= pre_next
                    &&& k < manager.next_key()
                    &&& manager.states().contains_key(k)
                    &&& manager.states()[k] is Loading
                },
        decreases records.len() - i,
    {
        let mut record = records[i].clone();
        request_resource(manager, &mut record);
        proof {
            assert(manager.pending().subrange(0, pre_pending.len() as int) =~= pre_pending);
        }
        updated.push(record);
        i = i + 1;
    }
    *records = updated;

    let mut bound: Vec<Option<Vec<u8>>> = Vec::new();
    let mut j: usize = 0;
    while j < records.len()
        invariant
            j <= records.len(),
            bound@.len() == j,
            records@.len() == pre_records.len(),
            forall|n: int|
                0 <= n < pre_records.len() && pre_records[n]@.key is Some ==> records@[n]
                    == pre_records[n],
            forall|n: int|
                0 <= n < pre_records.len() ==> (#[trigger] records@[n])@.key is Some,
            forall|n: int|
                0 <= n < pre_records.len() && pre_records[n]@.key is None ==> {
                    let k = (#[trigger] records@[n])@.key.unwrap();
                    &&& manager.states().contains_key(k)
                    &&& manager.states()[k] is Loading
                },
            forall|n: int|
                0 <= n < j ==> match #[trigger] bound@[n] {
                    Some(bytes) => pre_records[n]@.key is Some && snapshot_of(
                        manager.states(),
                        records@[n]@.key.unwrap(),
                    ) == LoadStateView::Loaded(bytes@),
                    None => pre_records[n]@.key is None || !(snapshot_of(
                        manager.states(),
                        records@[n]@.key.unwrap(),
                    ) is Loaded),
                },
        decreases records.len() - j,
    {
        let item = bind_mesh(manager, &records[j]);
        proof {
            if pre_records[j as int]@.key is Some {
                assert(records@[j as int] == pre_records[j as int]);
            }
        }
        bound.push(item);
        j = j + 1;
    }

    bound
}

} // verus!
