//! A deduplicating set of peer identities.

use vstd::prelude::*;

verus! {

/// Compares two byte strings.
pub fn bytes_equal(a: &Vec<u8>, b: &Vec<u8>) -> (r: bool)
    ensures
        r == (a@ == b@),
{
    if a.len() != b.len() {
        return false;
    }
    let mut i: usize = 0;
    while i < a.len()
        invariant
            a@.len() == b@.len(),
            0 <= i <= a@.len(),
            forall|k: int| 0 <= k < i ==> a@[k] == b@[k],
        decreases a@.len() - i,
    {
        if a[i] != b[i] {
            return false;
        }
        i = i + 1;
    }
    assert(a@ =~= b@);
    true
}

/// The distinct peer identities observed so far, each held once, as the
/// bytes of the identity.
pub struct PeerSet {
    ids: Vec<Vec<u8>>,
    members: Ghost<Set<Seq<u8>>>,
}

impl View for PeerSet {
    type V = Set<Seq<u8>>;

    closed spec fn view(&self) -> Set<Seq<u8>> {
        self.members@
    }
}

impl PeerSet {
    /// The stored identities are pairwise distinct and are exactly the members.
    pub closed spec fn wf(&self) -> bool {
        &&& self.members@.finite()
        &&& self.members@.len() == self.ids@.len()
        &&& forall|i: int| 0 <= i < self.ids@.len() ==> #[trigger] self.members@.contains(self.ids@[i]@)
        &&& forall|x: Seq<u8>| #[trigger] self.members@.contains(x) ==> exists|i: int|
            0 <= i < self.ids@.len() && self.ids@[i]@ == x
    }

    /// An empty set.
    pub fn new() -> (r: PeerSet)
        ensures
            r.wf(),
            r@ == Set::<Seq<u8>>::empty(),
    {
        PeerSet { ids: Vec::new(), members: Ghost(Set::empty()) }
    }

    /// The number of distinct identities held.
    pub fn len(&self) -> (r: usize)
        requires
            self.wf(),
        ensures
            r == self@.len(),
    {
        self.ids.len()
    }

    /// Whether `peer` is held.
    pub fn contains(&self, peer: &Vec<u8>) -> (r: bool)
        requires
            self.wf(),
        ensures
            r == self@.contains(peer@),
    {
        let mut i: usize = 0;
        while i < self.ids.len()
            invariant
                self.wf(),
                0 <= i <= self.ids@.len(),
                forall|k: int| 0 <= k < i ==> self.ids@[k]@ != peer@,
            decreases self.ids@.len() - i,
        {
            if bytes_equal(&self.ids[i], peer) {
                assert(self.members@.contains(self.ids@[i as int]@));
                return true;
            }
            i = i + 1;
        }
        false
    }

    /// Adds `peer`; a peer already held is not added twice.
    pub fn insert(&mut self, peer: &Vec<u8>)
        requires
            old(self).wf(),
        ensures
            final(self).wf(),
            final(self)@ == old(self)@.insert(peer@),
    {
        if !self.contains(peer) {
            let ghost before = self.ids@;
            self.ids.push(peer.clone());
            self.members = Ghost(self.members@.insert(peer@));
            assert forall|x: Seq<u8>| #[trigger] self.members@.contains(x) implies exists|i: int|
                0 <= i < self.ids@.len() && self.ids@[i]@ == x by {
                if x == peer@ {
                    assert(self.ids@[before.len() as int]@ == x);
                } else {
                    let i = choose|i: int| 0 <= i < before.len() && before[i]@ == x;
                    assert(self.ids@[i]@ == x);
                }
            }
            assert forall|i: int| 0 <= i < self.ids@.len() implies #[trigger] self.members@.contains(self.ids@[i]@) by {
                if i < before.len() {
                    assert(self.ids@[i] == before[i]);
                }
            }
        } else {
            assert(self.members@.insert(peer@) =~= self.members@);
        }
    }
}

} // verus!
