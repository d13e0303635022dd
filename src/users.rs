use vstd::prelude::*;

use crate::records::User;

verus! {

/// The store of user records, viewed as each user's reward points. A user's
/// handle is its position; records are never removed.
pub struct UserLedger {
    records: Vec<User>,
}

impl View for UserLedger {
    type V = Seq<nat>;

    closed spec fn view(&self) -> Seq<nat> {
        self.records@.map_values(|u: User| u.reward_points as nat)
    }
}

impl UserLedger {
    /// An empty ledger.
    pub fn new() -> (l: UserLedger)
        ensures
            l@ == Seq::<nat>::empty(),
    {
        let l = UserLedger { records: Vec::new() };
        assert(l@ =~= Seq::<nat>::empty());
        l
    }

    /// The number of users, which is also the next handle.
    pub fn len(&self) -> (n: usize)
        ensures
            n == self@.len(),
    {
        self.records.len()
    }

    /// Stores a new user with no reward points and returns its handle.
    pub fn create_user(&mut self) -> (h: u64)
        ensures
            h == old(self)@.len(),
            final(self)@ == old(self)@.push(0),
    {
        let handle = self.records.len() as u64;
        self.records.push(User { reward_points: 0 });
        assert(self@ =~= old(self)@.push(0));
        handle
    }

    /// Gives a user exactly one more reward point.
    pub fn grant_point(&mut self, handle: u64)
        requires
            handle < old(self)@.len(),
            old(self)@[handle as int] < u64::MAX,
        ensures
            final(self)@ == old(self)@.update(handle as int, old(self)@[handle as int] + 1),
    {
        let n = self.records.len();
        assert(self@.len() == n);
        let h = handle as usize;
        let points = self.records[h].reward_points;
        self.records.set(h, User { reward_points: points + 1 });
        assert(self@ =~= old(self)@.update(handle as int, old(self)@[handle as int] + 1));
    }

    /// A user's reward points.
    pub fn reward_points(&self, handle: u64) -> (r: u64)
        requires
            handle < self@.len(),
        ensures
            r == self@[handle as int],
    {
        let n = self.records.len();
        assert(self@.len() == n);
        self.records[handle as usize].reward_points
    }
}

} // verus!
