//! The records of the basic program, and what one instruction does to them.

use crate::layout::{
    byte_len, fits, text_space, DISCRIMINATOR_LEN, LENGTH_PREFIX_LEN, MAX_DESCRIPTION_LEN,
    MAX_NAME_LEN,
};
use crate::window::{judge, verdict_at, Verdict, WindowPolicy};
use vstd::prelude::*;

verus! {

/// Bytes set aside for a poll record: two texts and three integers.
pub const POLL_SPACE: usize = DISCRIMINATOR_LEN + LENGTH_PREFIX_LEN + MAX_NAME_LEN
    + LENGTH_PREFIX_LEN + MAX_DESCRIPTION_LEN + 8 + 8 + 8;

/// Bytes set aside for a candidate record: a text and an integer.
pub const CANDIDATE_SPACE: usize = DISCRIMINATOR_LEN + LENGTH_PREFIX_LEN + MAX_NAME_LEN + 8;

/// Bytes set aside for a voter record: a flag.
pub const VOTER_SPACE: usize = DISCRIMINATOR_LEN + 1;

/// Why the program turns a vote down.
#[derive(Clone, Copy, Debug, PartialEq, Eq, Structural)]
pub enum ErrorCode {
    /// Voting has not started yet.
    VotingNotStarted,
    /// Voting has ended.
    VotingEnded,
    /// The voter has already voted.
    AlreadyVoted,
}

/// A poll: what is asked, when votes count, and how many candidates stand.
#[derive(Clone, Debug, PartialEq, Eq)]
pub struct PollAccount {
    pub poll_name: String,
    pub poll_description: String,
    pub poll_voting_start: u64,
    pub poll_voting_end: u64,
    pub poll_option_index: u64,
}

/// A candidate of a poll and the votes it has received.
#[derive(Clone, Debug, PartialEq, Eq)]
pub struct CandidateAccount {
    pub candidate_name: String,
    pub candidate_votes: u64,
}

/// A voter registered with a poll.
#[derive(Clone, Copy, Debug, PartialEq, Eq)]
pub struct VoterAccount {
    pub has_voted: bool,
}

/// Any record of the program.
#[derive(Clone, Debug, PartialEq, Eq)]
pub enum Record {
    Poll(PollAccount),
    Candidate(CandidateAccount),
    Voter(VoterAccount),
}

/// The model of a poll.
pub struct PollAccountView {
    pub poll_name: Seq<char>,
    pub poll_description: Seq<char>,
    pub poll_voting_start: nat,
    pub poll_voting_end: nat,
    pub poll_option_index: nat,
}

/// The model of a candidate.
pub struct CandidateAccountView {
    pub candidate_name: Seq<char>,
    pub candidate_votes: nat,
}

/// The model of a record.
pub enum RecordView {
    Poll(PollAccountView),
    Candidate(CandidateAccountView),
    Voter(VoterAccount),
}

impl View for PollAccount {
    type V = PollAccountView;

    open spec fn view(&self) -> PollAccountView {
        PollAccountView {
            poll_name: self.poll_name@,
            poll_description: self.poll_description@,
            poll_voting_start: self.poll_voting_start as nat,
            poll_voting_end: self.poll_voting_end as nat,
            poll_option_index: self.poll_option_index as nat,
        }
    }
}

impl View for CandidateAccount {
    type V = CandidateAccountView;

    open spec fn view(&self) -> CandidateAccountView {
        CandidateAccountView {
            candidate_name: self.candidate_name@,
            candidate_votes: self.candidate_votes as nat,
        }
    }
}

impl View for VoterAccount {
    type V = VoterAccount;

    open spec fn view(&self) -> VoterAccount {
        *self
    }
}

impl View for Record {
    type V = RecordView;

    open spec fn view(&self) -> RecordView {
        match self {
            Record::Poll(p) => RecordView::Poll(p@),
            Record::Candidate(c) => RecordView::Candidate(c@),
            Record::Voter(v) => RecordView::Voter(*v),
        }
    }
}

/// How this program reads the ends of a voting window: open after the start,
/// still open at the end.
pub open spec fn window() -> WindowPolicy {
    WindowPolicy { strict_start: true, inclusive_end: true }
}

/// The window policy of this program.
pub fn window_policy() -> (r: WindowPolicy)
    ensures
        r == window(),
{
    WindowPolicy { strict_start: true, inclusive_end: true }
}

/// The poll that `initialize_poll` creates.
pub open spec fn fresh_poll(
    start_time: u64,
    end_time: u64,
    name: Seq<char>,
    description: Seq<char>,
) -> PollAccountView {
    PollAccountView {
        poll_name: name,
        poll_description: description,
        poll_voting_start: start_time as nat,
        poll_voting_end: end_time as nat,
        poll_option_index: 0,
    }
}

/// The candidate that `initialize_candidate` creates.
pub open spec fn fresh_candidate(name: Seq<char>) -> CandidateAccountView {
    CandidateAccountView { candidate_name: name, candidate_votes: 0 }
}

/// A poll with one more candidate.
pub open spec fn with_one_more_option(poll: PollAccountView) -> PollAccountView {
    PollAccountView { poll_option_index: poll.poll_option_index + 1, ..poll }
}

/// A candidate with one more vote.
pub open spec fn with_one_more_vote(candidate: CandidateAccountView) -> CandidateAccountView {
    CandidateAccountView { candidate_votes: candidate.candidate_votes + 1, ..candidate }
}

/// The refusal that goes with a verdict, if it is one.
pub open spec fn refusal(verdict: Verdict) -> Option<ErrorCode> {
    match verdict {
        Verdict::NotStarted => Some(ErrorCode::VotingNotStarted),
        Verdict::Ended => Some(ErrorCode::VotingEnded),
        Verdict::AlreadyVoted => Some(ErrorCode::AlreadyVoted),
        Verdict::Accepted => None,
    }
}

/// The bytes that a poll takes.
pub open spec fn poll_space(poll: PollAccountView) -> nat {
    DISCRIMINATOR_LEN as nat + text_space(poll.poll_name) + text_space(poll.poll_description) + 8
        + 8 + 8
}

/// The bytes that a candidate takes.
pub open spec fn candidate_space(candidate: CandidateAccountView) -> nat {
    DISCRIMINATOR_LEN as nat + text_space(candidate.candidate_name) + 8
}

impl PollAccount {
    /// A poll without candidates, or `None` where the name or the
    /// description does not fit its record. The window is taken as given.
    pub fn open(start_time: u64, end_time: u64, name: String, description: String) -> (r: Option<
        PollAccount,
    >)
        ensures
            match r {
                Some(poll) => byte_len(name@) <= MAX_NAME_LEN && byte_len(description@)
                    <= MAX_DESCRIPTION_LEN && poll@ == fresh_poll(
                    start_time,
                    end_time,
                    name@,
                    description@,
                ),
                None => byte_len(name@) > MAX_NAME_LEN || byte_len(description@)
                    > MAX_DESCRIPTION_LEN,
            },
    {
        if !fits(name.as_str(), MAX_NAME_LEN) || !fits(description.as_str(), MAX_DESCRIPTION_LEN) {
            return None;
        }
        Some(
            PollAccount {
                poll_name: name,
                poll_description: description,
                poll_voting_start: start_time,
                poll_voting_end: end_time,
                poll_option_index: 0,
            },
        )
    }

    /// The poll that stands after an opening with the given arguments: the
    /// poll that was there, untouched, or a new one without candidates where
    /// none was. `None` where the name or the description does not fit, be a
    /// poll there or not.
    pub fn open_or_keep(
        existing: Option<PollAccount>,
        start_time: u64,
        end_time: u64,
        name: String,
        description: String,
    ) -> (r: Option<PollAccount>)
        ensures
            match r {
                Some(poll) => byte_len(name@) <= MAX_NAME_LEN && byte_len(description@)
                    <= MAX_DESCRIPTION_LEN && poll@ == match existing {
                    Some(kept) => kept@,
                    None => fresh_poll(start_time, end_time, name@, description@),
                },
                None => byte_len(name@) > MAX_NAME_LEN || byte_len(description@)
                    > MAX_DESCRIPTION_LEN,
            },
    {
        match PollAccount::open(start_time, end_time, name, description) {
            Some(opened) => match existing {
                Some(kept) => Some(kept),
                None => Some(opened),
            },
            None => None,
        }
    }

    /// The same poll with one more candidate counted.
    pub fn with_candidate_counted(&self) -> (r: PollAccount)
        requires
            self.poll_option_index < u64::MAX,
        ensures
            r@ == with_one_more_option(self@),
    {
        PollAccount {
            poll_name: self.poll_name.clone(),
            poll_description: self.poll_description.clone(),
            poll_voting_start: self.poll_voting_start,
            poll_voting_end: self.poll_voting_end,
            poll_option_index: self.poll_option_index + 1,
        }
    }
}

impl CandidateAccount {
    /// A candidate without votes, or `None` where the name does not fit its
    /// record.
    pub fn named(name: String) -> (r: Option<CandidateAccount>)
        ensures
            match r {
                Some(candidate) => byte_len(name@) <= MAX_NAME_LEN && candidate@
                    == fresh_candidate(name@),
                None => byte_len(name@) > MAX_NAME_LEN,
            },
    {
        if !fits(name.as_str(), MAX_NAME_LEN) {
            return None;
        }
        Some(CandidateAccount { candidate_name: name, candidate_votes: 0 })
    }
}

impl VoterAccount {
    /// The voter that stands after a registration: the voter that was there,
    /// flag and all, or one who has not voted where none was.
    pub fn register(existing: Option<VoterAccount>) -> (r: VoterAccount)
        ensures
            r == match existing {
                Some(kept) => kept,
                None => VoterAccount { has_voted: false },
            },
    {
        match existing {
            Some(kept) => kept,
            None => VoterAccount { has_voted: false },
        }
    }
}

/// Judges a vote at `now` by `voter` for `candidate` in `poll`. The window
/// and the voter's flag decide, in that order. An accepted vote gives back
/// the candidate with one more vote and the voter with the flag set.
pub fn cast(poll: &PollAccount, candidate: &CandidateAccount, voter: &VoterAccount, now: i64) -> (r:
    Result<(CandidateAccount, VoterAccount), ErrorCode>)
    requires
        refusal(
            verdict_at(
                window(),
                poll.poll_voting_start as int,
                poll.poll_voting_end as int,
                voter.has_voted,
                now as int,
            ),
        ) is None ==> candidate.candidate_votes < u64::MAX,
    ensures
        match refusal(
            verdict_at(
                window(),
                poll.poll_voting_start as int,
                poll.poll_voting_end as int,
                voter.has_voted,
                now as int,
            ),
        ) {
            Some(code) => r == Err::<(CandidateAccount, VoterAccount), ErrorCode>(code),
            None => r matches Ok((counted, marked)) && counted@ == with_one_more_vote(candidate@)
                && marked == (VoterAccount { has_voted: true }),
        },
{
    let policy = window_policy();
    match judge(&policy, poll.poll_voting_start, poll.poll_voting_end, voter.has_voted, now) {
        Verdict::NotStarted => Err(ErrorCode::VotingNotStarted),
        Verdict::Ended => Err(ErrorCode::VotingEnded),
        Verdict::AlreadyVoted => Err(ErrorCode::AlreadyVoted),
        Verdict::Accepted => Ok(
            (
                CandidateAccount {
                    candidate_name: candidate.candidate_name.clone(),
                    candidate_votes: candidate.candidate_votes + 1,
                },
                VoterAccount { has_voted: true },
            ),
        ),
    }
}

} // verus!
