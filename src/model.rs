use vstd::prelude::*;

use crate::error::ErrorCode;
use crate::proposals::ProposalModel;
use crate::records::{VoteKey, spec_key_for, title_fits, description_fits};

verus! {

/// The whole ledger as mathematics: every proposal, every user's reward
/// points (a user is its handle), and the keys of all vote records.
pub ghost struct DaoModel {
    pub proposals: Seq<ProposalModel>,
    pub rewards: Seq<nat>,
    pub votes: Set<VoteKey>,
}

/// One public operation, as submitted by a caller.
pub ghost enum Op {
    CreateProposal { title: Seq<char>, description: Seq<char> },
    CreateUser,
    Vote { proposal: u64, user: u64, choice: bool },
    GetResults { proposal: u64 },
}

impl DaoModel {
    /// The ledger before any operation.
    pub open spec fn empty() -> DaoModel {
        DaoModel { proposals: Seq::empty(), rewards: Seq::empty(), votes: Set::empty() }
    }

    pub open spec fn is_proposal(self, proposal: u64) -> bool {
        proposal < self.proposals.len()
    }

    pub open spec fn is_user(self, user: u64) -> bool {
        user < self.rewards.len()
    }

    /// Whether the user has a vote record for the proposal.
    pub open spec fn has_voted(self, user: u64, proposal: u64) -> bool {
        self.votes.contains(spec_key_for(user, proposal))
    }

    /// The users who have voted on a proposal.
    pub open spec fn voters(self, proposal: u64) -> Set<u64> {
        Set::new(|user: u64| self.has_voted(user, proposal))
    }

    /// The proposals that a user has voted on.
    pub open spec fn ballots(self, user: u64) -> Set<u64> {
        Set::new(|proposal: u64| self.has_voted(user, proposal))
    }

    /// `create_proposal`: the new state and the result handed back.
    pub open spec fn create_proposal(self, title: Seq<char>, description: Seq<char>) -> (
        DaoModel,
        Result<u64, ErrorCode>,
    ) {
        if title_fits(title) && description_fits(description) {
            (
                DaoModel {
                    proposals: self.proposals.push(ProposalModel::fresh(title, description)),
                    ..self
                },
                Ok(self.proposals.len() as u64),
            )
        } else {
            (self, Err(ErrorCode::FieldTooLong))
        }
    }

    /// `create_user`: the new state and the handle handed back.
    pub open spec fn create_user(self) -> (DaoModel, u64) {
        (DaoModel { rewards: self.rewards.push(0), ..self }, self.rewards.len() as u64)
    }

    /// `vote`: the new state and the result handed back. Unknown handles
    /// are refused first, then a pair that has voted already; otherwise the
    /// record is created, the tally counts the choice and the user gains a
    /// point, all together.
    pub open spec fn vote(self, proposal: u64, user: u64, choice: bool) -> (
        DaoModel,
        Result<(), ErrorCode>,
    ) {
        if !(self.is_proposal(proposal) && self.is_user(user)) {
            (self, Err(ErrorCode::NotFound))
        } else if self.has_voted(user, proposal) {
            (self, Err(ErrorCode::AlreadyVoted))
        } else {
            (
                DaoModel {
                    proposals: self.proposals.update(
                        proposal as int,
                        self.proposals[proposal as int].counted(choice),
                    ),
                    rewards: self.rewards.update(user as int, self.rewards[user as int] + 1),
                    votes: self.votes.insert(spec_key_for(user, proposal)),
                },
                Ok(()),
            )
        }
    }

    /// `get_results`: the (yes, no) tally of a proposal.
    pub open spec fn results(self, proposal: u64) -> Result<(nat, nat), ErrorCode> {
        if self.is_proposal(proposal) {
            Ok((self.proposals[proposal as int].yes_votes, self.proposals[proposal as int].no_votes))
        } else {
            Err(ErrorCode::NotFound)
        }
    }

    /// The state after one operation.
    pub open spec fn apply(self, op: Op) -> DaoModel {
        match op {
            Op::CreateProposal { title, description } => self.create_proposal(title, description).0,
            Op::CreateUser => self.create_user().0,
            Op::Vote { proposal, user, choice } => self.vote(proposal, user, choice).0,
            Op::GetResults { proposal } => self,
        }
    }

    /// The state after a sequence of operations, in order.
    pub open spec fn run(self, ops: Seq<Op>) -> DaoModel
        decreases ops.len(),
    {
        if ops.len() == 0 {
            self
        } else {
            self.apply(ops[0]).run(ops.drop_first())
        }
    }

    /// The ledger's invariant: vote records name existing records, each
    /// proposal's tally counts its voters, each user's points count the
    /// proposals voted on, and stored texts are within their limits.
    pub open spec fn wf(self) -> bool {
        &&& forall|k: VoteKey| #[trigger]
            self.votes.contains(k) ==> self.is_user(k.user) && self.is_proposal(k.proposal)
        &&& forall|p: u64| #[trigger]
            self.is_proposal(p) ==> self.voters(p).finite() && self.voters(p).len()
                == self.proposals[p as int].total()
        &&& forall|u: u64| #[trigger]
            self.is_user(u) ==> self.ballots(u).finite() && self.ballots(u).len()
                == self.rewards[u as int]
        &&& forall|p: int| 0 <= p < self.proposals.len() ==> title_fits(
            #[trigger] self.proposals[p].title,
        ) && description_fits(self.proposals[p].description)
    }
}

} // verus!
