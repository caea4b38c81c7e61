//! The extended program: each poll has an administrator, who alone adds its
//! candidates; candidate names are checked against the candidates that the
//! caller shows; registered voters are counted; and a winner is named.
//!
//! Voting is open from a poll's start through its end, both included. A
//! poll is opened once: a second opening is refused. Registering a voter a
//! second time changes nothing.

pub mod accounts;
pub mod instructions;
pub mod laws;
pub mod ledger;
pub mod records;

pub use self::accounts::{GetWinner, InitializeCandidate, InitializePoll, RegisterVoter, Vote};
pub use self::instructions::{
    get_winner, initialize_candidate, initialize_poll, register_voter, try_initialize_candidate,
    try_register_voter, try_vote, vote, vote_at,
};
pub use self::ledger::Ledger;
pub use self::records::{
    admit_candidate, cast, declare_winner, enroll, vet_candidate, window_policy, Candidate, CustomError,
    Poll, Record, Turnout, Voter, Winner, CANDIDATE_SPACE, POLL_SPACE, VOTER_SPACE,
};
