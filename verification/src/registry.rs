//! The single registration point for channel pairs.
//!
//! Creating two pairs for one request/response combination silently
//! partitions traffic: producers feed one pair while consumers drain the
//! other, and nothing ever errors. The registry prevents that by
//! construction: every pair is created through `register`, keyed by an
//! identifier the application assigns to the combination, and a duplicate
//! registration fails fast instead of creating a second pair.

use vstd::prelude::*;

use crate::pair::ChannelPair;

verus! {

/// Tracks which pair identifiers were already claimed. Held by the startup
/// code; pairs are created through it exactly once each.
pub struct Registry {
    claimed: Vec<u64>,
}

impl Registry {
    #[verifier::type_invariant]
    spec fn inv(self) -> bool {
        self.claimed@.no_duplicates()
    }

    /// The set of identifiers registered so far.
    pub closed spec fn ids(self) -> Set<u64> {
        self.claimed@.to_set()
    }

    /// An empty registry: nothing is registered yet.
    pub fn new() -> (r: Self)
        ensures
            r.ids() == Set::<u64>::empty(),
    {
        let r = Registry { claimed: Vec::new() };
        proof {
            assert(r.claimed@.to_set() =~= Set::<u64>::empty());
        }
        r
    }

    /// Whether a pair was already registered under this identifier.
    pub fn is_registered(&self, pair_id: u64) -> (r: bool)
        ensures
            r == self.ids().contains(pair_id),
    {
        let n = self.claimed.len();
        let mut i: usize = 0;
        while i < n
            invariant
                n == self.claimed.len(),
                0 <= i <= n,
                forall|j: int| 0 <= j < i ==> self.claimed@[j] != pair_id,
            decreases n - i,
        {
            if self.claimed[i] == pair_id {
                return true;
            }
            i += 1;
        }
        proof {
            assert(!self.claimed@.contains(pair_id));
        }
        false
    }

    /// Creates the channel pair for a fresh identifier, and refuses a
    /// duplicate registration instead of creating a disconnected second
    /// pair.
    pub fn register<Q, O>(&mut self, pair_id: u64) -> (r: Option<ChannelPair<Q, O>>)
        ensures
            r is Some <==> !old(self).ids().contains(pair_id),
            final(self).ids() == old(self).ids().insert(pair_id),
    {
        proof {
            use_type_invariant(&*self);
        }
        if self.is_registered(pair_id) {
            proof {
                assert(self.ids() =~= self.ids().insert(pair_id));
            }
            None
        } else {
            let ghost before = self.claimed@;
            let mut taken: Vec<u64> = Vec::new();
            core::mem::swap(&mut taken, &mut self.claimed);
            taken.push(pair_id);
            core::mem::swap(&mut taken, &mut self.claimed);
            proof {
                assert(self.claimed@ == before.push(pair_id));
                assert forall|i: int, j: int|
                    0 <= i < self.claimed@.len() && 0 <= j < self.claimed@.len() && i
                        != j implies self.claimed@[i] != self.claimed@[j] by {
                    if i < before.len() && j < before.len() {
                    } else if i == before.len() {
                        assert(self.claimed@[j] == before[j]);
                        assert(!before.contains(pair_id));
                    } else {
                        assert(self.claimed@[i] == before[i]);
                        assert(!before.contains(pair_id));
                    }
                }
                before.lemma_push_to_set_commute(pair_id);
            }
            Some(ChannelPair::new())
        }
    }
}

} // verus!
