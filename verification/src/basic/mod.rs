//! The basic program: polls that anyone may open and add candidates to, one
//! vote for each registered voter, and a count for each candidate.
//!
//! Voting opens the instant after a poll's start and is still open at its
//! end. Opening a poll or registering a voter a second time changes nothing.

pub mod accounts;
pub mod instructions;
pub mod laws;
pub mod ledger;
pub mod records;

pub use self::accounts::{
    GetPollResults, InitializeCandidate, InitializePoll, RegisterVoter, Vote,
};
pub use self::instructions::{
    get_poll_results, initialize_candidate, initialize_poll, register_voter, tally,
    try_initialize_candidate, try_vote, vote, vote_at,
};
pub use self::ledger::Ledger;
pub use self::records::{
    cast, window_policy, CandidateAccount, ErrorCode, PollAccount, Record, VoterAccount,
    CANDIDATE_SPACE, POLL_SPACE, VOTER_SPACE,
};
