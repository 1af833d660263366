//! An on-chain poll: a poll has a voting window between a start and an end
//! time and a set of candidates; anyone may vote for a candidate after the
//! start and before the end.
use vstd::prelude::*;

verus! {

/// A candidate of a poll and the votes it has received.
#[derive(Debug)]
pub struct CandidateAccount {
    /// Name of the candidate (at most 32 bytes on chain).
    pub candidate_name: String,
    /// Number of votes received.
    pub candidate_votes: u64,
}

/// A poll: its metadata and its voting window.
#[derive(Debug)]
pub struct PollAccount {
    /// Name of the poll (at most 32 bytes on chain).
    pub poll_name: String,
    /// Description of the poll (at most 280 bytes on chain).
    pub poll_description: String,
    /// Unix timestamp (seconds) at which voting opens.
    pub poll_voting_start: u64,
    /// Unix timestamp (seconds) at which voting closes.
    pub poll_voting_end: u64,
    /// Number of candidates added so far.
    pub poll_option_index: u64,
}

/// Reasons a vote is rejected.
#[derive(Debug, Clone, Copy, PartialEq, Eq, Structural)]
pub enum ErrorCode {
    /// Voting has not started yet.
    VotingNotStarted,
    /// Voting has ended.
    VotingEnded,
}

/// The poll account an `initialize_poll` writes to: freshly created, or the
/// existing one for the same poll id.
pub struct InitializePoll {
    pub poll_account: PollAccount,
}

/// The accounts an `initialize_candidate` writes to: the poll and the
/// freshly created candidate.
pub struct InitializeCandidate {
    pub poll_account: PollAccount,
    pub candidate_account: CandidateAccount,
}

/// The accounts a `vote` reads and writes: the poll and the candidate.
pub struct Vote {
    pub poll_account: PollAccount,
    pub candidate_account: CandidateAccount,
}

/// Writes the name, description and voting window of a poll. The candidate
/// count of an existing poll is kept.
pub fn initialize_poll(
    ctx: &mut InitializePoll,
    _poll_id: u64,
    start_time: u64,
    end_time: u64,
    name: String,
    description: String,
)
    ensures
        final(ctx).poll_account.poll_name@ == name@,
        final(ctx).poll_account.poll_description@ == description@,
        final(ctx).poll_account.poll_voting_start == start_time,
        final(ctx).poll_account.poll_voting_end == end_time,
        final(ctx).poll_account.poll_option_index == old(ctx).poll_account.poll_option_index,
{
    let poll = &mut ctx.poll_account;
    poll.poll_name = name;
    poll.poll_description = description;
    poll.poll_voting_start = start_time;
    poll.poll_voting_end = end_time;
}

/// Names the new candidate and counts it in the poll.
pub fn initialize_candidate(ctx: &mut InitializeCandidate, _poll_id: u64, candidate: String)
    requires
        old(ctx).poll_account.poll_option_index < u64::MAX,
    ensures
        final(ctx).candidate_account.candidate_name@ == candidate@,
        final(ctx).candidate_account.candidate_votes == old(ctx).candidate_account.candidate_votes,
        final(ctx).poll_account.poll_option_index == old(ctx).poll_account.poll_option_index + 1,
        final(ctx).poll_account.poll_name@ == old(ctx).poll_account.poll_name@,
        final(ctx).poll_account.poll_description@ == old(ctx).poll_account.poll_description@,
        final(ctx).poll_account.poll_voting_start == old(ctx).poll_account.poll_voting_start,
        final(ctx).poll_account.poll_voting_end == old(ctx).poll_account.poll_voting_end,
{
    ctx.candidate_account.candidate_name = candidate;
    ctx.poll_account.poll_option_index = ctx.poll_account.poll_option_index + 1;
}

/// The error, if any, with which a vote at `current_time` is rejected: a
/// vote must come after the start and before the end, both bounds read as
/// signed timestamps; at or before the start voting has not started, and
/// from the end on it has ended.
pub open spec fn vote_error(poll: PollAccount, current_time: i64) -> Option<ErrorCode> {
    if current_time >= poll.poll_voting_end as i64 {
        Some(ErrorCode::VotingEnded)
    } else if current_time <= poll.poll_voting_start as i64 {
        Some(ErrorCode::VotingNotStarted)
    } else {
        None
    }
}

/// Checks whether a vote at `current_time` falls in the poll's voting window,
/// giving the error that refuses it otherwise.
pub fn check_voting_window(poll: &PollAccount, current_time: i64) -> (r: Option<ErrorCode>)
    ensures
        r == vote_error(*poll, current_time),
{
    if current_time >= poll.poll_voting_end as i64 {
        return Some(ErrorCode::VotingEnded);
    }
    if current_time <= poll.poll_voting_start as i64 {
        return Some(ErrorCode::VotingNotStarted);
    }
    None
}

/// Casts one vote for the candidate at `current_time`.
///
/// Rejected with `VotingEnded` from the end of the window on, and with
/// `VotingNotStarted` at or before its start; a rejected vote changes
/// nothing.
pub fn vote(ctx: &mut Vote, _poll_id: u64, _candidate: String, current_time: i64) -> (r: Result<
    (),
    ErrorCode,
>)
    requires
        vote_error(old(ctx).poll_account, current_time) is None
            ==> old(ctx).candidate_account.candidate_votes < u64::MAX,
    ensures
        match vote_error(old(ctx).poll_account, current_time) {
            Some(e) => r == Err::<(), ErrorCode>(e) && final(ctx).candidate_account.candidate_votes
                == old(ctx).candidate_account.candidate_votes,
            None => r is Ok && final(ctx).candidate_account.candidate_votes == old(
                ctx,
            ).candidate_account.candidate_votes + 1,
        },
        final(ctx).candidate_account.candidate_name@ == old(ctx).candidate_account.candidate_name@,
        final(ctx).poll_account.poll_name@ == old(ctx).poll_account.poll_name@,
        final(ctx).poll_account.poll_description@ == old(ctx).poll_account.poll_description@,
        final(ctx).poll_account.poll_voting_start == old(ctx).poll_account.poll_voting_start,
        final(ctx).poll_account.poll_voting_end == old(ctx).poll_account.poll_voting_end,
        final(ctx).poll_account.poll_option_index == old(ctx).poll_account.poll_option_index,
{
    if let Some(e) = check_voting_window(&ctx.poll_account, current_time) {
        return Err(e);
    }
    ctx.candidate_account.candidate_votes = ctx.candidate_account.candidate_votes + 1;
    Ok(())
}

} // verus!
