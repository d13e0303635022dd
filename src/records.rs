use vstd::prelude::*;

verus! {

/// A title must have fewer characters than this.
pub const TITLE_LIMIT: usize = 32;

/// A description must have fewer characters than this.
pub const DESCRIPTION_LIMIT: usize = 192;

/// A votable item with its running tally.
pub struct Proposal {
    pub title: String,
    pub description: String,
    pub yes_votes: u64,
    pub no_votes: u64,
}

/// A registered participant; earns one point per accepted vote.
pub struct User {
    pub reward_points: u64,
}

/// The permanent marker that a user has voted on a proposal.
pub struct VoteRecord {
    pub has_voted: bool,
}

/// The key of a vote record: the (user, proposal) pair it stands for.
#[derive(Debug, Clone, Copy, PartialEq, Eq, Structural)]
pub struct VoteKey {
    pub user: u64,
    pub proposal: u64,
}

/// The key that a vote of `user` on `proposal` is recorded under.
pub open spec fn spec_key_for(user: u64, proposal: u64) -> VoteKey {
    VoteKey { user, proposal }
}

/// Derives the vote-record key for a (user, proposal) pair. Distinct pairs
/// get distinct keys, so "has this pair voted" is "does this key exist".
pub fn key_for(user: u64, proposal: u64) -> (k: VoteKey)
    ensures
        k == spec_key_for(user, proposal),
{
    VoteKey { user, proposal }
}

/// Whether a text is short enough to be stored as a title.
pub open spec fn title_fits(title: Seq<char>) -> bool {
    title.len() < TITLE_LIMIT
}

/// Whether a text is short enough to be stored as a description.
pub open spec fn description_fits(description: Seq<char>) -> bool {
    description.len() < DESCRIPTION_LIMIT
}

} // verus!
