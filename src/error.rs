use vstd::prelude::*;

verus! {

/// Every way an operation on the ledger can be refused. A refused operation
/// leaves the ledger exactly as it was.
#[derive(Debug, Clone, Copy, PartialEq, Eq, Structural)]
pub enum ErrorCode {
    /// The user already has a vote record for this proposal.
    AlreadyVoted,
    /// Reserved for account ownership validation, which no operation performs yet.
    AccountOwnedByWrongProgram,
    /// A title or description is at or above its length limit.
    FieldTooLong,
    /// A handle does not name an existing record.
    NotFound,
}

} // verus!
