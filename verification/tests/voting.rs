use solana_bootcamp::voting::{
    check_voting_window, initialize_candidate, initialize_poll, vote, CandidateAccount, ErrorCode, InitializeCandidate,
    InitializePoll, PollAccount, Vote,
};

fn empty_poll() -> PollAccount {
    PollAccount {
        poll_name: String::new(),
        poll_description: String::new(),
        poll_voting_start: 0,
        poll_voting_end: 0,
        poll_option_index: 0,
    }
}

fn fresh_candidate() -> CandidateAccount {
    CandidateAccount { candidate_name: String::new(), candidate_votes: 0 }
}

fn poll(start: u64, end: u64) -> PollAccount {
    let mut ctx = InitializePoll { poll_account: empty_poll() };
    initialize_poll(&mut ctx, 1, start, end, "Favourite chain".to_string(), "Pick one".to_string());
    ctx.poll_account
}

#[test]
fn initialize_poll_writes_metadata_and_keeps_count() {
    let mut existing = empty_poll();
    existing.poll_option_index = 3;
    let mut ctx = InitializePoll { poll_account: existing };
    initialize_poll(&mut ctx, 7, 100, 200, "name".to_string(), "desc".to_string());
    assert_eq!(ctx.poll_account.poll_name, "name");
    assert_eq!(ctx.poll_account.poll_description, "desc");
    assert_eq!(ctx.poll_account.poll_voting_start, 100);
    assert_eq!(ctx.poll_account.poll_voting_end, 200);
    assert_eq!(ctx.poll_account.poll_option_index, 3);
}

#[test]
fn initialize_candidate_counts_candidates() {
    let mut ctx = InitializeCandidate { poll_account: poll(100, 200), candidate_account: fresh_candidate() };
    initialize_candidate(&mut ctx, 1, "Solana".to_string());
    assert_eq!(ctx.candidate_account.candidate_name, "Solana");
    assert_eq!(ctx.candidate_account.candidate_votes, 0);
    assert_eq!(ctx.poll_account.poll_option_index, 1);
    let mut second = InitializeCandidate { poll_account: ctx.poll_account, candidate_account: fresh_candidate() };
    initialize_candidate(&mut second, 1, "Ethereum".to_string());
    assert_eq!(second.poll_account.poll_option_index, 2);
}

#[test]
fn vote_inside_window_counts() {
    let mut ctx = Vote { poll_account: poll(100, 200), candidate_account: fresh_candidate() };
    assert_eq!(vote(&mut ctx, 1, "Solana".to_string(), 101), Ok(()));
    assert_eq!(vote(&mut ctx, 1, "Solana".to_string(), 199), Ok(()));
    assert_eq!(ctx.candidate_account.candidate_votes, 2);
}

#[test]
fn vote_outside_window_is_rejected() {
    let mut ctx = Vote { poll_account: poll(100, 200), candidate_account: fresh_candidate() };
    assert_eq!(vote(&mut ctx, 1, "Solana".to_string(), 99), Err(ErrorCode::VotingNotStarted));
    // At exactly the start time voting has not started yet.
    assert_eq!(vote(&mut ctx, 1, "Solana".to_string(), 100), Err(ErrorCode::VotingNotStarted));
    assert_eq!(vote(&mut ctx, 1, "Solana".to_string(), 200), Err(ErrorCode::VotingEnded));
    assert_eq!(vote(&mut ctx, 1, "Solana".to_string(), -5), Err(ErrorCode::VotingNotStarted));
    assert_eq!(ctx.candidate_account.candidate_votes, 0);
}

#[test]
fn vote_reads_bounds_as_signed_timestamps() {
    // An end beyond i64::MAX reads as a negative timestamp: voting is over.
    let mut ctx = Vote { poll_account: poll(0, u64::MAX), candidate_account: fresh_candidate() };
    assert_eq!(vote(&mut ctx, 1, "x".to_string(), 0), Err(ErrorCode::VotingEnded));
}

#[test]
fn voting_window_check() {
    let p = poll(100, 200);
    assert_eq!(check_voting_window(&p, 100), Some(ErrorCode::VotingNotStarted));
    assert_eq!(check_voting_window(&p, 101), None);
    assert_eq!(check_voting_window(&p, 199), None);
    assert_eq!(check_voting_window(&p, 200), Some(ErrorCode::VotingEnded));
}
