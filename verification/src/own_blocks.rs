//! The blocks that this node has proposed itself.

use vstd::prelude::*;

use crate::bytes::{same_bytes, views, Bytes};

verus! {

/// A set of block hashes.
pub struct BlockHashSet {
    hashes: Vec<Bytes>,
}

impl View for BlockHashSet {
    type V = Set<Seq<u8>>;

    closed spec fn view(&self) -> Set<Seq<u8>> {
        views(self.hashes@).to_set()
    }
}

impl BlockHashSet {
    /// Nothing is held twice.
    #[verifier::type_invariant]
    spec fn well_formed(self) -> bool {
        views(self.hashes@).no_duplicates()
    }

    /// The empty set.
    pub fn new() -> (set: Self)
        ensures
            set@ == Set::<Seq<u8>>::empty(),
    {
        let set = BlockHashSet { hashes: Vec::new() };
        assert(set@ =~= Set::<Seq<u8>>::empty());
        set
    }

    /// Tells whether `hash` is in the set.
    pub fn contains(&self, hash: &Bytes) -> (found: bool)
        ensures
            found == self@.contains(hash@),
    {
        let mut i: usize = 0;
        while i < self.hashes.len()
            invariant
                i <= self.hashes@.len(),
                forall|j: int| 0 <= j < i ==> (#[trigger] views(self.hashes@)[j]) != hash@,
            decreases self.hashes@.len() - i,
        {
            if same_bytes(&self.hashes[i], hash) {
                assert(views(self.hashes@)[i as int] == hash@);
                return true;
            }
            i += 1;
        }
        false
    }

    /// Adds `hash`, and tells whether it was not in the set before.
    pub fn insert(&mut self, hash: Bytes) -> (added: bool)
        ensures
            final(self)@ == old(self)@.insert(hash@),
            added == !old(self)@.contains(hash@),
    {
        proof {
            use_type_invariant(&*self);
        }
        if self.contains(&hash) {
            assert(self@ =~= old(self)@.insert(hash@));
            return false;
        }
        let ghost before = views(self.hashes@);
        let mut hashes: Vec<Bytes> = Vec::new();
        std::mem::swap(&mut hashes, &mut self.hashes);
        hashes.push(hash);
        proof {
            let after = views(hashes@);
            assert(after =~= before.push(hash@));
            assert(after.to_set() =~= before.to_set().insert(hash@)) by {
                assert forall|h: Seq<u8>| after.contains(h) == (before.contains(h) || h == hash@) by {
                    if before.contains(h) {
                        let i = choose|i: int| 0 <= i < before.len() && before[i] == h;
                        assert(after[i] == h);
                    }
                    if h == hash@ {
                        assert(after[before.len() as int] == h);
                    }
                }
            }
        }
        self.hashes = hashes;
        true
    }

    /// Empties the set.
    pub fn clear(&mut self)
        ensures
            final(self)@ == Set::<Seq<u8>>::empty(),
    {
        self.hashes = Vec::new();
        assert(self@ =~= Set::<Seq<u8>>::empty());
    }
}

} // verus!
