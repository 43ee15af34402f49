//! Unique keys for requested resources, and the issuer that produces them.

use vstd::prelude::*;

verus! {

/// A unique key to access the actual resource from the resource manager.
///
/// Keys are opaque handles: the only way to obtain one is to have the manager
/// issue it while requesting a resource.
#[derive(Debug, Clone, Copy, PartialEq, Eq, PartialOrd, Ord, Hash, Structural)]
pub struct ResourceKey(u64);

impl View for ResourceKey {
    type V = u64;

    closed spec fn view(&self) -> u64 {
        self.0
    }
}

impl ResourceKey {
    /// The raw counter value behind the key, for use as a map key.
    pub(crate) fn raw(&self) -> (r: u64)
        ensures
            r == self@,
    {
        self.0
    }
}

/// Issues resource keys: each call returns a key strictly greater than every
/// key issued before, so no two calls ever return the same key.
pub struct KeyIssuer {
    counter: u64,
    issued: Ghost<Seq<u64>>,
}

impl KeyIssuer {
    /// The keys issued so far, oldest first.
    pub closed spec fn issued(&self) -> Seq<u64> {
        self.issued@
    }

    /// The value the next issued key will carry.
    pub closed spec fn next(&self) -> u64 {
        self.counter
    }

    /// The issuer hands out consecutive counter values: the history holds
    /// exactly the values below the counter, in increasing order.
    pub closed spec fn wf(&self) -> bool {
        &&& self.issued@.len() == self.counter
        &&& forall|i: int| 0 <= i < self.issued@.len() ==> self.issued@[i] == i as u64
    }

    /// Creates an issuer that has issued nothing yet.
    pub fn new() -> (issuer: Self)
        ensures
            issuer.wf(),
            issuer.next() == 0,
            issuer.issued() == Seq::<u64>::empty(),
    {
        KeyIssuer { counter: 0, issued: Ghost(Seq::empty()) }
    }

    /// Returns true while a fresh key can still be issued.
    pub fn has_capacity(&self) -> (r: bool)
        ensures
            r == (self.next() < u64::MAX),
    {
        self.counter < u64::MAX
    }

    /// Returns a fresh key, strictly greater than every key issued before.
    pub fn issue(&mut self) -> (key: ResourceKey)
        requires
            old(self).wf(),
            old(self).next() < u64::MAX,
        ensures
            final(self).wf(),
            key@ == old(self).next(),
            final(self).next() == old(self).next() + 1,
            final(self).issued() == old(self).issued().push(key@),
    {
        let key = ResourceKey(self.counter);
        self.counter = self.counter + 1;
        self.issued = Ghost(self.issued@.push(key.0));
        key
    }
}

/// Keys are issued in strictly increasing order, so any two keys issued by
/// the same issuer are distinct.
pub proof fn lemma_issued_keys_strictly_increasing(issuer: &KeyIssuer)
    requires
        issuer.wf(),
    ensures
        forall|i: int, j: int|
            0 <= i < j < issuer.issued().len() ==> issuer.issued()[i] < issuer.issued()[j],
        forall|i: int, j: int|
            0 <= i < issuer.issued().len() && 0 <= j < issuer.issued().len() && i != j
                ==> issuer.issued()[i] != issuer.issued()[j],
{
}

} // verus!
