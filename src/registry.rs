use vstd::prelude::*;

use crate::error::ErrorCode;
use crate::records::{VoteKey, VoteRecord, key_for, spec_key_for};

verus! {

/// The store of vote records, viewed as the set of keys that hold one. A key
/// is stored at most once and never removed.
pub struct VoteRegistry {
    keys: Vec<VoteKey>,
}

impl View for VoteRegistry {
    type V = Set<VoteKey>;

    closed spec fn view(&self) -> Set<VoteKey> {
        self.keys@.to_set()
    }
}

impl VoteRegistry {
    /// The number of vote records held.
    pub closed spec fn count(&self) -> nat {
        self.keys@.len()
    }

    /// The number of vote records held.
    pub fn len(&self) -> (n: usize)
        ensures
            n == self.count(),
    {
        self.keys.len()
    }

    /// An empty registry.
    pub fn new() -> (r: VoteRegistry)
        ensures
            r@ == Set::<VoteKey>::empty(),
            r.count() == 0,
    {
        let r = VoteRegistry { keys: Vec::new() };
        assert(r@ =~= Set::<VoteKey>::empty());
        r
    }

    /// Whether the pair has a vote record.
    pub fn has_voted(&self, user: u64, proposal: u64) -> (b: bool)
        ensures
            b == self@.contains(spec_key_for(user, proposal)),
    {
        let key = key_for(user, proposal);
        let mut i: usize = 0;
        while i < self.keys.len()
            invariant
                0 <= i <= self.keys@.len(),
                key == spec_key_for(user, proposal),
                forall|j: int| 0 <= j < i ==> self.keys@[j] != key,
            decreases self.keys@.len() - i,
        {
            if self.keys[i] == key {
                assert(self.keys@[i as int] == key);
                assert(self.keys@.contains(key));
                assert(self@.contains(key));
                return true;
            }
            i = i + 1;
        }
        assert(!self.keys@.contains(key));
        false
    }

    /// Creates the vote record of the pair, failing with `AlreadyVoted`, and
    /// changing nothing, when it exists already.
    pub fn register(&mut self, user: u64, proposal: u64) -> (r: Result<VoteRecord, ErrorCode>)
        ensures
            old(self)@.contains(spec_key_for(user, proposal)) ==> r is Err && r->Err_0
                == ErrorCode::AlreadyVoted && final(self)@ == old(self)@ && final(self).count()
                == old(self).count(),
            !old(self)@.contains(spec_key_for(user, proposal)) ==> r is Ok && r->Ok_0.has_voted
                && final(self)@ == old(self)@.insert(spec_key_for(user, proposal))
                && final(self).count() == old(self).count() + 1,
    {
        if self.has_voted(user, proposal) {
            return Err(ErrorCode::AlreadyVoted);
        }
        let key = key_for(user, proposal);
        self.keys.push(key);
        assert(self.keys@[self.keys@.len() - 1] == key);
        assert(self.keys@.contains(key));
        assert(self@ =~= old(self)@.insert(key)) by {
            assert forall|k: VoteKey| self@.contains(k) == old(self)@.insert(key).contains(k) by {
                if old(self).keys@.contains(k) {
                    let j = choose|j: int| 0 <= j < old(self).keys@.len() && old(self).keys@[j] == k;
                    assert(self.keys@[j] == k);
                }
                if self.keys@.contains(k) && k != key {
                    let j = choose|j: int| 0 <= j < self.keys@.len() && self.keys@[j] == k;
                    assert(old(self).keys@[j] == k);
                }
            }
        }
        Ok(VoteRecord { has_voted: true })
    }
}

} // verus!
