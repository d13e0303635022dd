use vstd::prelude::*;

use crate::error::ErrorCode;
use crate::records::{Proposal, TITLE_LIMIT, DESCRIPTION_LIMIT, title_fits, description_fits};

verus! {

/// What a proposal record holds, with its counters as natural numbers.
pub ghost struct ProposalModel {
    pub title: Seq<char>,
    pub description: Seq<char>,
    pub yes_votes: nat,
    pub no_votes: nat,
}

impl ProposalModel {
    /// A freshly created proposal: the given texts and an empty tally.
    pub open spec fn fresh(title: Seq<char>, description: Seq<char>) -> ProposalModel {
        ProposalModel { title, description, yes_votes: 0, no_votes: 0 }
    }

    /// The number of votes counted so far.
    pub open spec fn total(self) -> nat {
        self.yes_votes + self.no_votes
    }

    /// The proposal after one more vote with the given choice.
    pub open spec fn counted(self, choice: bool) -> ProposalModel {
        if choice {
            ProposalModel { yes_votes: self.yes_votes + 1, ..self }
        } else {
            ProposalModel { no_votes: self.no_votes + 1, ..self }
        }
    }
}

impl View for Proposal {
    type V = ProposalModel;

    open spec fn view(&self) -> ProposalModel {
        ProposalModel {
            title: self.title@,
            description: self.description@,
            yes_votes: self.yes_votes as nat,
            no_votes: self.no_votes as nat,
        }
    }
}

/// The store of proposal records. A proposal's handle is its position;
/// records are never removed, so a handle stays valid once issued.
pub struct ProposalLedger {
    records: Vec<Proposal>,
}

impl View for ProposalLedger {
    type V = Seq<ProposalModel>;

    closed spec fn view(&self) -> Seq<ProposalModel> {
        self.records@.map_values(|p: Proposal| p@)
    }
}

impl ProposalLedger {
    /// An empty ledger.
    pub fn new() -> (l: ProposalLedger)
        ensures
            l@ == Seq::<ProposalModel>::empty(),
    {
        let l = ProposalLedger { records: Vec::new() };
        assert(l@ =~= Seq::<ProposalModel>::empty());
        l
    }

    /// The number of proposals, which is also the next handle.
    pub fn len(&self) -> (n: usize)
        ensures
            n == self@.len(),
    {
        self.records.len()
    }

    /// Stores a new proposal with an empty tally and returns its handle.
    /// Refused with `FieldTooLong`, storing nothing, when the title or the
    /// description is at or above its limit.
    pub fn create_proposal(&mut self, title: String, description: String) -> (r: Result<u64, ErrorCode>)
        ensures
            !(title_fits(title@) && description_fits(description@))
                ==> r == Err::<u64, ErrorCode>(ErrorCode::FieldTooLong) && final(self)@ == old(self)@,
            title_fits(title@) && description_fits(description@) ==> r == Ok::<u64, ErrorCode>(
                old(self)@.len() as u64,
            ) && final(self)@ == old(self)@.push(ProposalModel::fresh(title@, description@)),
    {
        if title.as_str().unicode_len() >= TITLE_LIMIT
            || description.as_str().unicode_len() >= DESCRIPTION_LIMIT {
            return Err(ErrorCode::FieldTooLong);
        }
        let handle = self.records.len() as u64;
        let proposal = Proposal { title, description, yes_votes: 0, no_votes: 0 };
        self.records.push(proposal);
        assert(self@ =~= old(self)@.push(ProposalModel::fresh(proposal@.title, proposal@.description)));
        Ok(handle)
    }

    /// Adds one vote with the given choice to the proposal's tally.
    pub fn apply_vote(&mut self, handle: u64, choice: bool)
        requires
            handle < old(self)@.len(),
            old(self)@[handle as int].total() < u64::MAX,
        ensures
            final(self)@ == old(self)@.update(handle as int, old(self)@[handle as int].counted(choice)),
    {
        let n = self.records.len();
        assert(self@.len() == n);
        let h = handle as usize;
        assert(self@[h as int] == self.records@[h as int]@);
        let mut p = Proposal { title: String::new(), description: String::new(), yes_votes: 0, no_votes: 0 };
        std::mem::swap(&mut p, &mut self.records[h]);
        if choice {
            p.yes_votes = p.yes_votes + 1;
        } else {
            p.no_votes = p.no_votes + 1;
        }
        self.records.set(h, p);
        assert(self@ =~= old(self)@.update(handle as int, old(self)@[handle as int].counted(choice)));
    }

    /// The (yes, no) tally of a proposal.
    pub fn read_results(&self, handle: u64) -> (r: (u64, u64))
        requires
            handle < self@.len(),
        ensures
            r.0 == self@[handle as int].yes_votes,
            r.1 == self@[handle as int].no_votes,
    {
        let n = self.records.len();
        assert(self@.len() == n);
        let h = handle as usize;
        assert(self@[h as int] == self.records@[h as int]@);
        let p = &self.records[h];
        (p.yes_votes, p.no_votes)
    }
}

} // verus!
