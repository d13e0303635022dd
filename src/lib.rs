use vstd::prelude::*;

pub mod error;
pub mod records;
pub mod proposals;
pub mod users;
pub mod registry;
pub mod model;
pub mod laws;
pub mod service;

pub use error::ErrorCode;
pub use records::{Proposal, User, VoteRecord, VoteKey, TITLE_LIMIT, DESCRIPTION_LIMIT};
pub use service::{
    DaoVoting, CreateProposal, Vote, GetResults, CreateUser, create_proposal, vote, get_results,
    create_user,
};

verus! {

} // verus!
