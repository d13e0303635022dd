use vstd::prelude::*;

use crate::error::ErrorCode;
use crate::laws::{lemma_empty_wf, lemma_create_proposal_wf, lemma_create_user_wf, lemma_vote_wf};
use crate::model::DaoModel;
use crate::proposals::ProposalLedger;
use crate::registry::VoteRegistry;
use crate::users::UserLedger;

verus! {

/// The ledger that the four operations act on: proposals, users and vote
/// records. Each operation either applies all its writes or none.
pub struct DaoVoting {
    proposals: ProposalLedger,
    users: UserLedger,
    votes: VoteRegistry,
}

impl View for DaoVoting {
    type V = DaoModel;

    closed spec fn view(&self) -> DaoModel {
        DaoModel { proposals: self.proposals@, rewards: self.users@, votes: self.votes@ }
    }
}

impl DaoVoting {
    /// The invariant of the model, and every counter bounded by the number
    /// of vote records, which keeps the counters from overflowing.
    pub closed spec fn wf(&self) -> bool {
        &&& self@.wf()
        &&& forall|p: int|
            0 <= p < self.proposals@.len() ==> #[trigger] self.proposals@[p].total()
                <= self.votes.count()
        &&& forall|u: int| 0 <= u < self.users@.len() ==> #[trigger] self.users@[u] <= self.votes.count()
    }

    /// The model of a well-formed ledger satisfies the model's invariant.
    pub proof fn lemma_wf(&self)
        requires
            self.wf(),
        ensures
            self@.wf(),
    {
    }

    /// An empty ledger.
    pub fn new() -> (d: DaoVoting)
        ensures
            d.wf(),
            d@ == DaoModel::empty(),
    {
        let d = DaoVoting {
            proposals: ProposalLedger::new(),
            users: UserLedger::new(),
            votes: VoteRegistry::new(),
        };
        proof {
            lemma_empty_wf();
        }
        assert(d@ == DaoModel::empty());
        d
    }

    /// A user's reward points; `NotFound` when the handle names no user.
    pub fn reward_points(&self, user: u64) -> (r: Result<u64, ErrorCode>)
        ensures
            self@.is_user(user) ==> r == Ok::<u64, ErrorCode>(self@.rewards[user as int] as u64),
            !self@.is_user(user) ==> r == Err::<u64, ErrorCode>(ErrorCode::NotFound),
    {
        if user >= self.users.len() as u64 {
            return Err(ErrorCode::NotFound);
        }
        Ok(self.users.reward_points(user))
    }

    /// Whether the user has voted on the proposal.
    pub fn has_voted(&self, user: u64, proposal: u64) -> (b: bool)
        ensures
            b == self@.has_voted(user, proposal),
    {
        self.votes.has_voted(user, proposal)
    }
}

/// The caller of `create_proposal`: the identity that authorises it.
pub struct CreateProposal {
    pub signer: u64,
}

/// The records a vote acts on, and the identity that authorises it.
pub struct Vote {
    pub proposal: u64,
    pub user: u64,
    pub signer: u64,
}

/// The proposal whose tally is read.
pub struct GetResults {
    pub proposal: u64,
}

/// The caller of `create_user`: the identity that authorises it.
pub struct CreateUser {
    pub signer: u64,
}

/// Opens a proposal with the given texts and an empty tally, and returns its
/// handle; refused with `FieldTooLong` when a text is at or above its limit.
pub fn create_proposal(dao: &mut DaoVoting, ctx: CreateProposal, title: String, description: String) -> (r: Result<u64, ErrorCode>)
    requires
        old(dao).wf(),
    ensures
        final(dao).wf(),
        (final(dao)@, r) == old(dao)@.create_proposal(title@, description@),
{
    let r = dao.proposals.create_proposal(title, description);
    proof {
        lemma_create_proposal_wf(old(dao)@, title@, description@);
    }
    assert(dao@ == old(dao)@.create_proposal(title@, description@).0);
    r
}

/// Registers a user with no reward points, and returns its handle.
pub fn create_user(dao: &mut DaoVoting, ctx: CreateUser) -> (r: u64)
    requires
        old(dao).wf(),
    ensures
        final(dao).wf(),
        (final(dao)@, r) == old(dao)@.create_user(),
{
    let r = dao.users.create_user();
    proof {
        lemma_create_user_wf(old(dao)@);
    }
    assert(dao@ == old(dao)@.create_user().0);
    r
}

/// Casts the user's vote on the proposal. Refused with `NotFound` when a
/// handle names no record, and with `AlreadyVoted` when the pair has voted;
/// otherwise records the pair, counts the choice and grants one point.
pub fn vote(dao: &mut DaoVoting, ctx: Vote, choice: bool) -> (r: Result<(), ErrorCode>)
    requires
        old(dao).wf(),
    ensures
        final(dao).wf(),
        (final(dao)@, r) == old(dao)@.vote(ctx.proposal, ctx.user, choice),
{
    let proposal = ctx.proposal;
    let user = ctx.user;
    if proposal >= dao.proposals.len() as u64 || user >= dao.users.len() as u64 {
        return Err(ErrorCode::NotFound);
    }
    match dao.votes.register(user, proposal) {
        Err(e) => {
            return Err(e);
        },
        Ok(_record) => {},
    }
    let count = dao.votes.len();
    assert(dao.proposals@[proposal as int].total() < count);
    assert(dao.users@[user as int] < count);
    dao.proposals.apply_vote(proposal, choice);
    dao.users.grant_point(user);
    proof {
        lemma_vote_wf(old(dao)@, proposal, user, choice);
    }
    assert(dao@ == old(dao)@.vote(proposal, user, choice).0);
    Ok(())
}

/// Reads the (yes, no) tally of a proposal; `NotFound` when the handle names
/// no proposal. Reading changes nothing.
pub fn get_results(dao: &DaoVoting, ctx: GetResults) -> (r: Result<(u64, u64), ErrorCode>)
    requires
        dao.wf(),
    ensures
        match (r, dao@.results(ctx.proposal)) {
            (Ok((yes, no)), Ok((y, n))) => yes == y && no == n,
            (Err(e), Err(f)) => e == f,
            _ => false,
        },
{
    if ctx.proposal >= dao.proposals.len() as u64 {
        return Err(ErrorCode::NotFound);
    }
    Ok(dao.proposals.read_results(ctx.proposal))
}

} // verus!
