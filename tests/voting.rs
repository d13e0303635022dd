use dao_voting::{
    create_proposal, create_user, get_results, vote, CreateProposal, CreateUser, DaoVoting,
    ErrorCode, GetResults, Vote, DESCRIPTION_LIMIT, TITLE_LIMIT,
};

fn new_proposal(dao: &mut DaoVoting, title: &str, description: &str) -> Result<u64, ErrorCode> {
    create_proposal(
        dao,
        CreateProposal { signer: 1 },
        title.to_string(),
        description.to_string(),
    )
}

fn new_user(dao: &mut DaoVoting) -> u64 {
    create_user(dao, CreateUser { signer: 1 })
}

fn cast(dao: &mut DaoVoting, proposal: u64, user: u64, choice: bool) -> Result<(), ErrorCode> {
    vote(dao, Vote { proposal, user, signer: 1 }, choice)
}

fn results(dao: &DaoVoting, proposal: u64) -> Result<(u64, u64), ErrorCode> {
    get_results(dao, GetResults { proposal })
}

#[test]
fn upgrade_scenario() {
    let mut dao = DaoVoting::new();
    let p = new_proposal(&mut dao, "Upgrade", "Increase block size").unwrap();
    let a = new_user(&mut dao);
    let b = new_user(&mut dao);
    assert_eq!(cast(&mut dao, p, a, true), Ok(()));
    assert_eq!(cast(&mut dao, p, b, false), Ok(()));
    assert_eq!(results(&dao, p), Ok((1, 1)));
    assert_eq!(cast(&mut dao, p, a, true), Err(ErrorCode::AlreadyVoted));
    assert_eq!(results(&dao, p), Ok((1, 1)));
    assert_eq!(dao.reward_points(a), Ok(1));
    assert_eq!(dao.reward_points(b), Ok(1));
}

#[test]
fn second_vote_is_refused_and_changes_nothing() {
    let mut dao = DaoVoting::new();
    let p = new_proposal(&mut dao, "Fees", "Lower the fees").unwrap();
    let u = new_user(&mut dao);
    assert!(!dao.has_voted(u, p));
    assert_eq!(cast(&mut dao, p, u, false), Ok(()));
    assert!(dao.has_voted(u, p));
    for choice in [true, false, true] {
        assert_eq!(cast(&mut dao, p, u, choice), Err(ErrorCode::AlreadyVoted));
        assert_eq!(results(&dao, p), Ok((0, 1)));
        assert_eq!(dao.reward_points(u), Ok(1));
    }
}

#[test]
fn refused_even_after_other_operations() {
    let mut dao = DaoVoting::new();
    let p = new_proposal(&mut dao, "A", "first").unwrap();
    let u = new_user(&mut dao);
    assert_eq!(cast(&mut dao, p, u, true), Ok(()));
    let q = new_proposal(&mut dao, "B", "second").unwrap();
    let w = new_user(&mut dao);
    assert_eq!(cast(&mut dao, q, u, true), Ok(()));
    assert_eq!(cast(&mut dao, p, w, true), Ok(()));
    assert_eq!(cast(&mut dao, p, u, false), Err(ErrorCode::AlreadyVoted));
    assert_eq!(results(&dao, p), Ok((2, 0)));
}

#[test]
fn tallies_count_distinct_voters() {
    let mut dao = DaoVoting::new();
    let p = new_proposal(&mut dao, "Tally", "count them").unwrap();
    let q = new_proposal(&mut dao, "Other", "not this one").unwrap();
    let users: Vec<u64> = (0..5).map(|_| new_user(&mut dao)).collect();
    for (i, u) in users.iter().enumerate() {
        assert_eq!(cast(&mut dao, p, *u, i % 2 == 0), Ok(()));
        let _ = cast(&mut dao, p, *u, true);
    }
    assert_eq!(cast(&mut dao, q, users[0], false), Ok(()));
    assert_eq!(results(&dao, p), Ok((3, 2)));
    assert_eq!(results(&dao, q), Ok((0, 1)));
}

#[test]
fn rewards_count_distinct_proposals() {
    let mut dao = DaoVoting::new();
    let u = new_user(&mut dao);
    let other = new_user(&mut dao);
    let proposals: Vec<u64> = (0..4)
        .map(|i| new_proposal(&mut dao, "P", &format!("proposal {}", i)).unwrap())
        .collect();
    for p in &proposals {
        assert_eq!(cast(&mut dao, *p, u, true), Ok(()));
        assert_eq!(cast(&mut dao, *p, u, true), Err(ErrorCode::AlreadyVoted));
    }
    assert_eq!(dao.reward_points(u), Ok(4));
    assert_eq!(dao.reward_points(other), Ok(0));
}

#[test]
fn fresh_records_start_at_zero() {
    let mut dao = DaoVoting::new();
    let p = new_proposal(&mut dao, "Fresh", "nothing yet").unwrap();
    let u = new_user(&mut dao);
    assert_eq!(results(&dao, p), Ok((0, 0)));
    assert_eq!(dao.reward_points(u), Ok(0));
}

#[test]
fn handles_are_issued_in_order() {
    let mut dao = DaoVoting::new();
    assert_eq!(new_proposal(&mut dao, "a", "b"), Ok(0));
    assert_eq!(new_proposal(&mut dao, "c", "d"), Ok(1));
    assert_eq!(new_user(&mut dao), 0);
    assert_eq!(new_user(&mut dao), 1);
    assert_eq!(new_user(&mut dao), 2);
}

#[test]
fn reads_change_nothing() {
    let mut dao = DaoVoting::new();
    let p = new_proposal(&mut dao, "Read", "read it twice").unwrap();
    let u = new_user(&mut dao);
    assert_eq!(cast(&mut dao, p, u, true), Ok(()));
    let first = results(&dao, p);
    for _ in 0..10 {
        assert_eq!(results(&dao, p), first);
    }
    assert_eq!(first, Ok((1, 0)));
    assert_eq!(dao.reward_points(u), Ok(1));
}

#[test]
fn title_at_limit_is_refused() {
    let mut dao = DaoVoting::new();
    let long = "t".repeat(TITLE_LIMIT);
    assert_eq!(new_proposal(&mut dao, &long, "ok"), Err(ErrorCode::FieldTooLong));
    let longer = "t".repeat(TITLE_LIMIT + 1);
    assert_eq!(new_proposal(&mut dao, &longer, "ok"), Err(ErrorCode::FieldTooLong));
    assert_eq!(results(&dao, 0), Err(ErrorCode::NotFound));
    let fits = "t".repeat(TITLE_LIMIT - 1);
    assert_eq!(new_proposal(&mut dao, &fits, "ok"), Ok(0));
}

#[test]
fn description_at_limit_is_refused() {
    let mut dao = DaoVoting::new();
    let long = "d".repeat(DESCRIPTION_LIMIT);
    assert_eq!(new_proposal(&mut dao, "ok", &long), Err(ErrorCode::FieldTooLong));
    assert_eq!(results(&dao, 0), Err(ErrorCode::NotFound));
    let fits = "d".repeat(DESCRIPTION_LIMIT - 1);
    assert_eq!(new_proposal(&mut dao, "ok", &fits), Ok(0));
}

#[test]
fn limits_count_characters() {
    let mut dao = DaoVoting::new();
    let wide = "\u{e9}".repeat(TITLE_LIMIT - 1);
    assert_eq!(new_proposal(&mut dao, &wide, "ok"), Ok(0));
    assert_eq!(TITLE_LIMIT, 32);
    assert_eq!(DESCRIPTION_LIMIT, 192);
}

#[test]
fn unknown_handles_are_not_found() {
    let mut dao = DaoVoting::new();
    let p = new_proposal(&mut dao, "X", "y").unwrap();
    let u = new_user(&mut dao);
    assert_eq!(cast(&mut dao, p + 1, u, true), Err(ErrorCode::NotFound));
    assert_eq!(cast(&mut dao, p, u + 1, true), Err(ErrorCode::NotFound));
    assert_eq!(results(&dao, p + 1), Err(ErrorCode::NotFound));
    assert_eq!(dao.reward_points(u + 1), Err(ErrorCode::NotFound));
    assert_eq!(results(&dao, p), Ok((0, 0)));
    assert_eq!(dao.reward_points(u), Ok(0));
    assert_eq!(cast(&mut dao, p, u, true), Ok(()));
}

#[test]
fn reserved_error_is_distinct() {
    assert_ne!(ErrorCode::AccountOwnedByWrongProgram, ErrorCode::AlreadyVoted);
    assert_ne!(ErrorCode::FieldTooLong, ErrorCode::NotFound);
}
