use vstd::prelude::*;

use crate::error::ErrorCode;
use crate::model::{DaoModel, Op};
use crate::records::{spec_key_for, title_fits, description_fits};

verus! {

/// The empty ledger satisfies the invariant.
pub proof fn lemma_empty_wf()
    ensures
        DaoModel::empty().wf(),
{
    let m = DaoModel::empty();
    assert forall|p: u64| #[trigger] m.is_proposal(p) implies m.voters(p).finite() && m.voters(p).len()
        == m.proposals[p as int].total() by {}
    assert forall|u: u64| #[trigger] m.is_user(u) implies m.ballots(u).finite() && m.ballots(u).len()
        == m.rewards[u as int] by {}
}

/// Creating a proposal preserves the invariant.
pub proof fn lemma_create_proposal_wf(m: DaoModel, title: Seq<char>, description: Seq<char>)
    requires
        m.wf(),
    ensures
        m.create_proposal(title, description).0.wf(),
{
    let n = m.create_proposal(title, description).0;
    if n != m {
        assert forall|p: u64| #[trigger] n.is_proposal(p) implies n.voters(p).finite()
            && n.voters(p).len() == n.proposals[p as int].total() by {
            if m.is_proposal(p) {
                assert(n.voters(p) =~= m.voters(p));
                assert(m.is_proposal(p));
            } else {
                assert(n.voters(p) =~= Set::<u64>::empty()) by {
                    assert forall|u: u64| !n.voters(p).contains(u) by {
                        assert(!m.votes.contains(spec_key_for(u, p)));
                    }
                }
            }
        }
        assert forall|u: u64| #[trigger] n.is_user(u) implies n.ballots(u).finite()
            && n.ballots(u).len() == n.rewards[u as int] by {
            assert(n.ballots(u) =~= m.ballots(u));
            assert(m.is_user(u));
        }
        assert forall|k| #[trigger] n.votes.contains(k) implies n.is_user(k.user) && n.is_proposal(
            k.proposal,
        ) by {
            assert(m.votes.contains(k));
        }
    }
}

/// Creating a user preserves the invariant.
pub proof fn lemma_create_user_wf(m: DaoModel)
    requires
        m.wf(),
    ensures
        m.create_user().0.wf(),
{
    let n = m.create_user().0;
    assert forall|p: u64| #[trigger] n.is_proposal(p) implies n.voters(p).finite()
        && n.voters(p).len() == n.proposals[p as int].total() by {
        assert(n.voters(p) =~= m.voters(p));
        assert(m.is_proposal(p));
    }
    assert forall|u: u64| #[trigger] n.is_user(u) implies n.ballots(u).finite() && n.ballots(u).len()
        == n.rewards[u as int] by {
        if m.is_user(u) {
            assert(n.ballots(u) =~= m.ballots(u));
        } else {
            assert(n.ballots(u) =~= Set::<u64>::empty()) by {
                assert forall|p: u64| !n.ballots(u).contains(p) by {
                    assert(!m.votes.contains(spec_key_for(u, p)));
                }
            }
        }
    }
    assert forall|k| #[trigger] n.votes.contains(k) implies n.is_user(k.user) && n.is_proposal(
        k.proposal,
    ) by {
        assert(m.votes.contains(k));
    }
}

/// Voting preserves the invariant.
pub proof fn lemma_vote_wf(m: DaoModel, proposal: u64, user: u64, choice: bool)
    requires
        m.wf(),
    ensures
        m.vote(proposal, user, choice).0.wf(),
{
    let n = m.vote(proposal, user, choice).0;
    if m.is_proposal(proposal) && m.is_user(user) && !m.has_voted(user, proposal) {
        assert forall|p: u64| #[trigger] n.is_proposal(p) implies n.voters(p).finite()
            && n.voters(p).len() == n.proposals[p as int].total() by {
            assert(m.is_proposal(p));
            if p == proposal {
                assert(n.voters(p) =~= m.voters(p).insert(user));
                assert(!m.voters(p).contains(user));
            } else {
                assert(n.voters(p) =~= m.voters(p));
            }
        }
        assert forall|u: u64| #[trigger] n.is_user(u) implies n.ballots(u).finite()
            && n.ballots(u).len() == n.rewards[u as int] by {
            assert(m.is_user(u));
            if u == user {
                assert(n.ballots(u) =~= m.ballots(u).insert(proposal));
                assert(!m.ballots(u).contains(proposal));
            } else {
                assert(n.ballots(u) =~= m.ballots(u));
            }
        }
        assert forall|k| #[trigger] n.votes.contains(k) implies n.is_user(k.user) && n.is_proposal(
            k.proposal,
        ) by {
            if k != spec_key_for(user, proposal) {
                assert(m.votes.contains(k));
            }
        }
        assert forall|p: int| 0 <= p < n.proposals.len() implies title_fits(
            #[trigger] n.proposals[p].title,
        ) && description_fits(n.proposals[p].description) by {
            assert(n.proposals[p].title == m.proposals[p].title);
        }
        assert(n.wf());
    } else {
        assert(n == m);
    }
}

/// Every operation preserves the invariant.
pub proof fn lemma_apply_wf(m: DaoModel, op: Op)
    requires
        m.wf(),
    ensures
        m.apply(op).wf(),
{
    match op {
        Op::CreateProposal { title, description } => lemma_create_proposal_wf(m, title, description),
        Op::CreateUser => lemma_create_user_wf(m),
        Op::Vote { proposal, user, choice } => lemma_vote_wf(m, proposal, user, choice),
        Op::GetResults { proposal } => {},
    }
}

/// Every sequence of operations preserves the invariant.
pub proof fn lemma_run_wf(m: DaoModel, ops: Seq<Op>)
    requires
        m.wf(),
    ensures
        m.run(ops).wf(),
    decreases ops.len(),
{
    if ops.len() > 0 {
        lemma_apply_wf(m, ops[0]);
        lemma_run_wf(m.apply(ops[0]), ops.drop_first());
    }
}

/// What an operation may do to earlier state: records are only added, vote
/// records are never removed, and no counter ever decreases.
pub open spec fn grows_from(later: DaoModel, earlier: DaoModel) -> bool {
    &&& earlier.proposals.len() <= later.proposals.len()
    &&& earlier.rewards.len() <= later.rewards.len()
    &&& earlier.votes.subset_of(later.votes)
    &&& forall|p: int|
        0 <= p < earlier.proposals.len() ==> earlier.proposals[p].yes_votes
            <= #[trigger] later.proposals[p].yes_votes && earlier.proposals[p].no_votes
            <= later.proposals[p].no_votes
    &&& forall|u: int|
        0 <= u < earlier.rewards.len() ==> earlier.rewards[u] <= #[trigger] later.rewards[u]
}

/// One operation only adds records and only raises counters.
pub proof fn lemma_apply_grows(m: DaoModel, op: Op)
    ensures
        grows_from(m.apply(op), m),
{
}

/// Any sequence of operations only adds records and only raises counters:
/// votes are permanent and tallies are monotonic.
pub proof fn law_counters_monotonic(m: DaoModel, ops: Seq<Op>)
    ensures
        grows_from(m.run(ops), m),
    decreases ops.len(),
{
    if ops.len() > 0 {
        let n = m.apply(ops[0]);
        lemma_apply_grows(m, ops[0]);
        law_counters_monotonic(n, ops.drop_first());
        let s = n.run(ops.drop_first());
        assert forall|p: int| 0 <= p < m.proposals.len() implies m.proposals[p].yes_votes
            <= #[trigger] s.proposals[p].yes_votes && m.proposals[p].no_votes
            <= s.proposals[p].no_votes by {
            assert(m.proposals[p].yes_votes <= n.proposals[p].yes_votes);
        }
        assert forall|u: int| 0 <= u < m.rewards.len() implies m.rewards[u]
            <= #[trigger] s.rewards[u] by {
            assert(m.rewards[u] <= n.rewards[u]);
        }
    }
}

/// Exactly-once voting: on existing records, the first vote of a user on a
/// proposal succeeds; whatever happens afterwards, every further vote of the
/// pair is refused with `AlreadyVoted` and changes nothing.
pub proof fn law_exactly_once(
    m: DaoModel,
    proposal: u64,
    user: u64,
    first: bool,
    between: Seq<Op>,
    again: bool,
)
    requires
        m.is_proposal(proposal),
        m.is_user(user),
        !m.has_voted(user, proposal),
    ensures
        m.vote(proposal, user, first).1 == Ok::<(), ErrorCode>(()),
        ({
            let s = m.vote(proposal, user, first).0.run(between);
            s.vote(proposal, user, again) == (s, Err::<(), ErrorCode>(ErrorCode::AlreadyVoted))
        }),
{
    let n = m.vote(proposal, user, first).0;
    law_counters_monotonic(n, between);
    assert(n.votes.contains(spec_key_for(user, proposal)));
}

/// Tally conservation: after any sequence of operations from the empty
/// ledger, each proposal's yes and no votes add up to the number of distinct
/// users who voted on it.
pub proof fn law_tally_conservation(ops: Seq<Op>)
    ensures
        forall|p: u64| #[trigger]
            DaoModel::empty().run(ops).is_proposal(p) ==> DaoModel::empty().run(ops).voters(
                p,
            ).finite() && DaoModel::empty().run(ops).proposals[p as int].total()
                == DaoModel::empty().run(ops).voters(p).len(),
{
    lemma_empty_wf();
    lemma_run_wf(DaoModel::empty(), ops);
}

/// Reward conservation: after any sequence of operations from the empty
/// ledger, each user's reward points are the number of distinct proposals
/// the user voted on.
pub proof fn law_reward_conservation(ops: Seq<Op>)
    ensures
        forall|u: u64| #[trigger]
            DaoModel::empty().run(ops).is_user(u) ==> DaoModel::empty().run(ops).ballots(
                u,
            ).finite() && DaoModel::empty().run(ops).rewards[u as int]
                == DaoModel::empty().run(ops).ballots(u).len(),
{
    lemma_empty_wf();
    lemma_run_wf(DaoModel::empty(), ops);
}

/// Fresh records: a created proposal starts with no yes and no no votes,
/// and a created user starts with no reward points.
pub proof fn law_fresh_records(m: DaoModel, title: Seq<char>, description: Seq<char>)
    ensures
        m.create_proposal(title, description).1 is Ok ==> m.create_proposal(
            title,
            description,
        ).0.proposals.last().yes_votes == 0 && m.create_proposal(
            title,
            description,
        ).0.proposals.last().no_votes == 0,
        m.create_user().0.rewards.last() == 0,
{
}

/// Read idempotence: any number of reads leaves the ledger as it was, so
/// every read of a proposal returns the same tally.
pub proof fn law_read_idempotent(m: DaoModel, reads: Seq<Op>, proposal: u64)
    requires
        forall|i: int| 0 <= i < reads.len() ==> #[trigger] reads[i] is GetResults,
    ensures
        m.run(reads) == m,
        m.run(reads).results(proposal) == m.results(proposal),
    decreases reads.len(),
{
    if reads.len() > 0 {
        let rest = reads.drop_first();
        assert forall|i: int| 0 <= i < rest.len() implies #[trigger] rest[i] is GetResults by {
            assert(rest[i] == reads[i + 1]);
        }
        assert(reads[0] is GetResults);
        law_read_idempotent(m, rest, proposal);
    }
}

} // verus!
