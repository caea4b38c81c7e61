//! The records of the extended program, and what one instruction does to
//! them.

use crate::address::{Address, ADDRESS_BYTES};
use crate::error::Failure;
use crate::layout::{
    byte_len, fits, text_space, DISCRIMINATOR_LEN, LENGTH_PREFIX_LEN, MAX_DESCRIPTION_LEN,
    MAX_NAME_LEN,
};
use crate::window::{judge, verdict_at, Verdict, WindowPolicy};
use vstd::prelude::*;

verus! {

/// Bytes set aside for a poll record: a text, five integers and an address.
pub const POLL_SPACE: usize = DISCRIMINATOR_LEN + 8 + LENGTH_PREFIX_LEN + MAX_DESCRIPTION_LEN + 8
    + 8 + 8 + 8 + ADDRESS_BYTES;

/// Bytes set aside for a candidate record: a text and an integer.
pub const CANDIDATE_SPACE: usize = DISCRIMINATOR_LEN + LENGTH_PREFIX_LEN + MAX_NAME_LEN + 8;

/// Bytes set aside for a voter record: a flag.
pub const VOTER_SPACE: usize = DISCRIMINATOR_LEN + 1;

/// Why the program turns an instruction down.
#[derive(Clone, Copy, Debug, PartialEq, Eq, Structural)]
pub enum CustomError {
    /// The poll has not started yet.
    PollNotStarted,
    /// The poll has already ended.
    PollEnded,
    /// The voter has already voted.
    AlreadyVoted,
    /// Only the administrator of the poll can do this.
    NotAdmin,
    /// A candidate of this name is among those shown.
    DuplicateCandidate,
}

/// A poll: what is asked, when votes count, how many candidates stand and
/// how many voters are registered, and who administers it.
#[derive(Clone, Debug, PartialEq, Eq)]
pub struct Poll {
    pub poll_id: u64,
    pub description: String,
    pub poll_start: u64,
    pub poll_end: u64,
    pub candidate_amount: u64,
    pub voter_count: u64,
    pub admin: Address,
}

/// A candidate of a poll and the votes it has received.
#[derive(Clone, Debug, PartialEq, Eq)]
pub struct Candidate {
    pub candidate_name: String,
    pub candidate_votes: u64,
}

/// A voter registered with a poll.
#[derive(Clone, Copy, Debug, PartialEq, Eq)]
pub struct Voter {
    pub has_voted: bool,
}

/// Any record of the program.
#[derive(Clone, Debug, PartialEq, Eq)]
pub enum Record {
    Poll(Poll),
    Candidate(Candidate),
    Voter(Voter),
}

/// The model of a poll.
pub struct PollView {
    pub poll_id: u64,
    pub description: Seq<char>,
    pub poll_start: nat,
    pub poll_end: nat,
    pub candidate_amount: nat,
    pub voter_count: nat,
    pub admin: Seq<u8>,
}

/// The model of a candidate.
pub struct CandidateView {
    pub candidate_name: Seq<char>,
    pub candidate_votes: nat,
}

/// The model of a record.
pub enum RecordView {
    Poll(PollView),
    Candidate(CandidateView),
    Voter(Voter),
}

impl View for Poll {
    type V = PollView;

    open spec fn view(&self) -> PollView {
        PollView {
            poll_id: self.poll_id,
            description: self.description@,
            poll_start: self.poll_start as nat,
            poll_end: self.poll_end as nat,
            candidate_amount: self.candidate_amount as nat,
            voter_count: self.voter_count as nat,
            admin: self.admin@,
        }
    }
}

impl View for Candidate {
    type V = CandidateView;

    open spec fn view(&self) -> CandidateView {
        CandidateView {
            candidate_name: self.candidate_name@,
            candidate_votes: self.candidate_votes as nat,
        }
    }
}

impl View for Voter {
    type V = Voter;

    open spec fn view(&self) -> Voter {
        *self
    }
}

impl View for Record {
    type V = RecordView;

    open spec fn view(&self) -> RecordView {
        match self {
            Record::Poll(p) => RecordView::Poll(p@),
            Record::Candidate(c) => RecordView::Candidate(c@),
            Record::Voter(v) => RecordView::Voter(*v),
        }
    }
}

/// How this program reads the ends of a voting window: open at the start,
/// still open at the end.
pub open spec fn window() -> WindowPolicy {
    WindowPolicy { strict_start: false, inclusive_end: true }
}

/// The window policy of this program.
pub fn window_policy() -> (r: WindowPolicy)
    ensures
        r == window(),
{
    WindowPolicy { strict_start: false, inclusive_end: true }
}

/// The poll that `initialize_poll` creates.
pub open spec fn fresh_poll(
    poll_id: u64,
    description: Seq<char>,
    poll_start: u64,
    poll_end: u64,
    admin: Seq<u8>,
) -> PollView {
    PollView {
        poll_id,
        description,
        poll_start: poll_start as nat,
        poll_end: poll_end as nat,
        candidate_amount: 0,
        voter_count: 0,
        admin,
    }
}

/// The candidate that `initialize_candidate` creates.
pub open spec fn fresh_candidate(name: Seq<char>) -> CandidateView {
    CandidateView { candidate_name: name, candidate_votes: 0 }
}

/// A poll with one more candidate.
pub open spec fn with_one_more_candidate(poll: PollView) -> PollView {
    PollView { candidate_amount: poll.candidate_amount + 1, ..poll }
}

/// A poll with one more registered voter.
pub open spec fn with_one_more_voter(poll: PollView) -> PollView {
    PollView { voter_count: poll.voter_count + 1, ..poll }
}

/// A candidate with one more vote.
pub open spec fn with_one_more_vote(candidate: CandidateView) -> CandidateView {
    CandidateView { candidate_votes: candidate.candidate_votes + 1, ..candidate }
}

/// The refusal that goes with a verdict, if it is one.
pub open spec fn refusal(verdict: Verdict) -> Option<CustomError> {
    match verdict {
        Verdict::NotStarted => Some(CustomError::PollNotStarted),
        Verdict::Ended => Some(CustomError::PollEnded),
        Verdict::AlreadyVoted => Some(CustomError::AlreadyVoted),
        Verdict::Accepted => None,
    }
}

/// What is wrong with one of the candidates shown to `initialize_candidate`:
/// it could not be read, or it has the name that is asked for.
pub open spec fn fault_of(shown: Option<CandidateView>, name: Seq<char>) -> Option<
    Failure<CustomError>,
> {
    match shown {
        None => Some(Failure::NotFound),
        Some(c) => if c.candidate_name == name {
            Some(Failure::Program(CustomError::DuplicateCandidate))
        } else {
            None
        },
    }
}

/// The fault of the first of the shown candidates that has one.
pub open spec fn first_fault(shown: Seq<Option<CandidateView>>, name: Seq<char>) -> Option<
    Failure<CustomError>,
>
    decreases shown.len(),
{
    if shown.len() == 0 {
        None
    } else {
        match first_fault(shown.drop_last(), name) {
            Some(f) => Some(f),
            None => fault_of(shown.last(), name),
        }
    }
}

/// The views of the shown candidates, in order.
pub open spec fn shown_views(shown: Seq<Option<Candidate>>) -> Seq<Option<CandidateView>> {
    Seq::new(
        shown.len(),
        |i: int|
            match shown[i] {
                Some(c) => Some(c@),
                None => None,
            },
    )
}

/// The views of a list of candidates, in order.
pub open spec fn candidate_views(candidates: Seq<Candidate>) -> Seq<CandidateView> {
    Seq::new(candidates.len(), |i: int| candidates[i]@)
}

/// The name and the votes that a pass over the candidates ends with. The
/// first candidate leads at first, whatever its votes, and a later one takes
/// the lead only with more votes than the leader before it. Without
/// candidates there is no name and there are no votes.
pub open spec fn leader(candidates: Seq<CandidateView>) -> (Seq<char>, nat)
    decreases candidates.len(),
{
    if candidates.len() == 0 {
        (Seq::empty(), 0)
    } else if candidates.len() == 1 {
        (candidates.last().candidate_name, candidates.last().candidate_votes)
    } else {
        let before = leader(candidates.drop_last());
        if candidates.last().candidate_votes > before.1 {
            (candidates.last().candidate_name, candidates.last().candidate_votes)
        } else {
            before
        }
    }
}

/// The whole percents of `voters` that `votes` make up, rounded down: zero
/// where there are no voters.
pub open spec fn percent_of(votes: nat, voters: nat) -> nat {
    if voters == 0 {
        0
    } else {
        (votes * 100 / voters) as nat
    }
}

/// A turnout, kept exact: `votes` out of `voters` registered. As a
/// percentage it is `votes / voters * 100`, and zero where `voters` is zero.
#[derive(Clone, Copy, Debug, PartialEq, Eq, Structural)]
pub struct Turnout {
    pub votes: u64,
    pub voters: u64,
}

impl Turnout {
    /// The turnout in whole percents, rounded down. Without voters it is
    /// zero, and nothing is divided.
    pub fn percent(&self) -> (r: u128)
        ensures
            r == percent_of(self.votes as nat, self.voters as nat),
    {
        if self.voters == 0 {
            0
        } else {
            let scaled: u128 = self.votes as u128 * 100;
            scaled / self.voters as u128
        }
    }
}

/// The result of a poll: the leading candidate, its votes, and the turnout
/// that those votes make.
#[derive(Clone, Debug, PartialEq, Eq)]
pub struct Winner {
    pub name: String,
    pub votes: u64,
    pub turnout: Turnout,
}

/// The bytes that a poll takes.
pub open spec fn poll_space(poll: PollView) -> nat {
    DISCRIMINATOR_LEN as nat + 8 + text_space(poll.description) + 8 + 8 + 8 + 8
        + ADDRESS_BYTES as nat
}

/// The bytes that a candidate takes.
pub open spec fn candidate_space(candidate: CandidateView) -> nat {
    DISCRIMINATOR_LEN as nat + text_space(candidate.candidate_name) + 8
}

impl Poll {
    /// A poll without candidates or voters, administered by `admin`, or
    /// `None` where the description does not fit its record. The window is
    /// taken as given.
    pub fn open(
        poll_id: u64,
        description: String,
        poll_start: u64,
        poll_end: u64,
        admin: Address,
    ) -> (r: Option<Poll>)
        ensures
            match r {
                Some(poll) => byte_len(description@) <= MAX_DESCRIPTION_LEN && poll@ == fresh_poll(
                    poll_id,
                    description@,
                    poll_start,
                    poll_end,
                    admin@,
                ),
                None => byte_len(description@) > MAX_DESCRIPTION_LEN,
            },
    {
        if !fits(description.as_str(), MAX_DESCRIPTION_LEN) {
            return None;
        }
        Some(
            Poll {
                poll_id,
                description,
                poll_start,
                poll_end,
                candidate_amount: 0,
                voter_count: 0,
                admin,
            },
        )
    }

    /// The same poll with one more candidate counted.
    pub fn with_candidate_counted(&self) -> (r: Poll)
        requires
            self.candidate_amount < u64::MAX,
        ensures
            r@ == with_one_more_candidate(self@),
    {
        Poll {
            poll_id: self.poll_id,
            description: self.description.clone(),
            poll_start: self.poll_start,
            poll_end: self.poll_end,
            candidate_amount: self.candidate_amount + 1,
            voter_count: self.voter_count,
            admin: self.admin,
        }
    }

    /// The same poll with one more voter counted.
    pub fn with_voter_counted(&self) -> (r: Poll)
        requires
            self.voter_count < u64::MAX,
        ensures
            r@ == with_one_more_voter(self@),
    {
        Poll {
            poll_id: self.poll_id,
            description: self.description.clone(),
            poll_start: self.poll_start,
            poll_end: self.poll_end,
            candidate_amount: self.candidate_amount,
            voter_count: self.voter_count + 1,
            admin: self.admin,
        }
    }
}

/// What a registration leaves of the voter and of the poll. A voter who was
/// there stays as they were, flag and all, and so does the poll. Where none
/// was, the voter has not voted and the poll counts one more: there its
/// count must have room.
pub fn enroll(existing: Option<Voter>, poll: &Poll) -> (r: (Voter, Poll))
    requires
        existing is None ==> poll.voter_count < u64::MAX,
    ensures
        match existing {
            Some(kept) => r.0 == kept && r.1@ == poll@,
            None => r.0 == (Voter { has_voted: false }) && r.1@ == with_one_more_voter(poll@),
        },
{
    match existing {
        Some(kept) => (
            kept,
            Poll {
                poll_id: poll.poll_id,
                description: poll.description.clone(),
                poll_start: poll.poll_start,
                poll_end: poll.poll_end,
                candidate_amount: poll.candidate_amount,
                voter_count: poll.voter_count,
                admin: poll.admin,
            },
        ),
        None => (Voter { has_voted: false }, poll.with_voter_counted()),
    }
}

impl Candidate {
    /// A candidate without votes, or `None` where the name does not fit its
    /// record.
    pub fn named(name: String) -> (r: Option<Candidate>)
        ensures
            match r {
                Some(candidate) => byte_len(name@) <= MAX_NAME_LEN && candidate@
                    == fresh_candidate(name@),
                None => byte_len(name@) > MAX_NAME_LEN,
            },
    {
        if !fits(name.as_str(), MAX_NAME_LEN) {
            return None;
        }
        Some(Candidate { candidate_name: name, candidate_votes: 0 })
    }
}

/// Why `caller` may not add a candidate called `name` to `poll`, given the
/// candidates shown, if there is a reason. The caller must be the
/// administrator. Then the first of the shown candidates that could not be
/// read or that bears the name decides.
pub open spec fn objection(
    poll: PollView,
    caller: Seq<u8>,
    shown: Seq<Option<CandidateView>>,
    name: Seq<char>,
) -> Option<Failure<CustomError>> {
    if poll.admin != caller {
        Some(Failure::Program(CustomError::NotAdmin))
    } else {
        first_fault(shown, name)
    }
}

/// Decides whether `caller` may add a candidate called `name` to `poll`,
/// given the candidates shown (`None` for one that could not be read). The
/// caller must be the administrator. Then the shown candidates are gone
/// through in order, and the first that could not be read or that bears the
/// name decides the failure.
pub fn vet_candidate(poll: &Poll, caller: &Address, shown: &Vec<Option<Candidate>>, name: &String) -> (r:
    Result<(), Failure<CustomError>>)
    ensures
        match r {
            Ok(_) => objection(poll@, caller@, shown_views(shown@), name@) is None,
            Err(f) => objection(poll@, caller@, shown_views(shown@), name@) == Some(f),
        },
{
    if !poll.admin.same(caller) {
        return Err(Failure::Program(CustomError::NotAdmin));
    }
    let ghost views = shown_views(shown@);
    let mut i: usize = 0;
    while i < shown.len()
        invariant
            i <= shown@.len(),
            poll.admin@ == caller@,
            views == shown_views(shown@),
            first_fault(views.take(i as int), name@) is None,
        decreases shown@.len() - i,
    {
        proof {
            assert(views.take(i + 1).drop_last() =~= views.take(i as int));
            assert(views.take(i + 1).last() == views[i as int]);
            assert(views[i as int] == match shown@[i as int] {
                Some(c) => Some(c@),
                None => None,
            });
        }
        match &shown[i] {
            None => {
                proof {
                    later_faults_do_not_matter(views, name@, i + 1);
                }
                return Err(Failure::NotFound);
            },
            Some(c) => {
                if c.candidate_name == *name {
                    proof {
                        later_faults_do_not_matter(views, name@, i + 1);
                    }
                    return Err(Failure::Program(CustomError::DuplicateCandidate));
                }
            },
        }
        i += 1;
    }
    proof {
        assert(views.take(i as int) =~= views);
    }
    Ok(())
}

/// Admits a candidate called `name` to `poll` on behalf of `caller`, given
/// the candidates shown: where `vet_candidate` has no objection, the poll
/// with one more candidate is given back. There the poll's count must have
/// room for the candidate.
pub fn admit_candidate(poll: &Poll, caller: &Address, shown: &Vec<Option<Candidate>>, name: &String) -> (r:
    Result<Poll, Failure<CustomError>>)
    requires
        objection(poll@, caller@, shown_views(shown@), name@) is None ==> poll.candidate_amount
            < u64::MAX,
    ensures
        match r {
            Ok(counted) => objection(poll@, caller@, shown_views(shown@), name@) is None
                && counted@ == with_one_more_candidate(poll@),
            Err(f) => objection(poll@, caller@, shown_views(shown@), name@) == Some(f),
        },
{
    match vet_candidate(poll, caller, shown, name) {
        Ok(_) => Ok(poll.with_candidate_counted()),
        Err(f) => Err(f),
    }
}

/// A fault among the first `n` shown candidates is the fault of them all.
pub proof fn later_faults_do_not_matter(shown: Seq<Option<CandidateView>>, name: Seq<char>, n: int)
    requires
        0 <= n <= shown.len(),
        first_fault(shown.take(n), name) is Some,
    ensures
        first_fault(shown, name) == first_fault(shown.take(n), name),
    decreases shown.len() - n,
{
    if n == shown.len() {
        assert(shown.take(n) =~= shown);
    } else {
        assert(shown.take(n + 1).drop_last() =~= shown.take(n));
        later_faults_do_not_matter(shown, name, n + 1);
    }
}

/// Judges a vote at `now` by `voter` for `candidate` in `poll`. The window
/// and the voter's flag decide, in that order. An accepted vote gives back
/// the candidate with one more vote and the voter with the flag set.
pub fn cast(poll: &Poll, candidate: &Candidate, voter: &Voter, now: i64) -> (r: Result<
    (Candidate, Voter),
    CustomError,
>)
    requires
        refusal(
            verdict_at(
                window(),
                poll.poll_start as int,
                poll.poll_end as int,
                voter.has_voted,
                now as int,
            ),
        ) is None ==> candidate.candidate_votes < u64::MAX,
    ensures
        match refusal(
            verdict_at(
                window(),
                poll.poll_start as int,
                poll.poll_end as int,
                voter.has_voted,
                now as int,
            ),
        ) {
            Some(code) => r == Err::<(Candidate, Voter), CustomError>(code),
            None => r matches Ok((counted, marked)) && counted@ == with_one_more_vote(candidate@)
                && marked == (Voter { has_voted: true }),
        },
{
    let policy = window_policy();
    match judge(&policy, poll.poll_start, poll.poll_end, voter.has_voted, now) {
        Verdict::NotStarted => Err(CustomError::PollNotStarted),
        Verdict::Ended => Err(CustomError::PollEnded),
        Verdict::AlreadyVoted => Err(CustomError::AlreadyVoted),
        Verdict::Accepted => Ok(
            (
                Candidate {
                    candidate_name: candidate.candidate_name.clone(),
                    candidate_votes: candidate.candidate_votes + 1,
                },
                Voter { has_voted: true },
            ),
        ),
    }
}

/// Names the winner among `candidates` in one pass: the first candidate
/// with the most votes, also where that is no votes at all, and no name
/// only where there are no candidates. The turnout sets the winner's votes
/// against the voters registered with `poll`.
pub fn declare_winner(poll: &Poll, candidates: &Vec<Candidate>) -> (r: Winner)
    ensures
        (r.name@, r.votes as nat) == leader(candidate_views(candidates@)),
        r.turnout == (Turnout { votes: r.votes, voters: poll.voter_count }),
{
    let ghost views = candidate_views(candidates@);
    if candidates.len() == 0 {
        return Winner {
            name: String::new(),
            votes: 0,
            turnout: Turnout { votes: 0, voters: poll.voter_count },
        };
    }
    let mut highest_votes: u64 = candidates[0].candidate_votes;
    let mut winner_name = candidates[0].candidate_name.clone();
    let mut i: usize = 1;
    proof {
        assert(views.take(1).last() == views[0]);
    }
    while i < candidates.len()
        invariant
            1 <= i <= candidates@.len(),
            views == candidate_views(candidates@),
            (winner_name@, highest_votes as nat) == leader(views.take(i as int)),
        decreases candidates@.len() - i,
    {
        proof {
            assert(views.take(i + 1).drop_last() =~= views.take(i as int));
            assert(views.take(i + 1).last() == views[i as int]);
        }
        if candidates[i].candidate_votes > highest_votes {
            highest_votes = candidates[i].candidate_votes;
            winner_name = candidates[i].candidate_name.clone();
        }
        i += 1;
    }
    proof {
        assert(views.take(i as int) =~= views);
    }
    Winner {
        name: winner_name,
        votes: highest_votes,
        turnout: Turnout { votes: highest_votes, voters: poll.voter_count },
    }
}

/// What a pass over the candidates ends with, said directly. Without
/// candidates it names nobody and counts no votes. Otherwise it gives the
/// name and the votes of one of the candidates: none has more votes, and
/// none before it has as many. Among candidates with the most votes the
/// first wins, also where the most is none.
pub proof fn leader_is_first_with_most_votes(candidates: Seq<CandidateView>)
    ensures
        candidates.len() == 0 ==> leader(candidates) == (Seq::<char>::empty(), 0nat),
        candidates.len() > 0 ==> exists|i: int|
            0 <= i < candidates.len() && (#[trigger] candidates[i]).candidate_name == leader(
                candidates,
            ).0 && candidates[i].candidate_votes == leader(candidates).1 && (forall|j: int|
                0 <= j < i ==> (#[trigger] candidates[j]).candidate_votes < leader(candidates).1)
                && (forall|j: int|
                0 <= j < candidates.len() ==> (#[trigger] candidates[j]).candidate_votes <= leader(
                    candidates,
                ).1),
    decreases candidates.len(),
{
    if candidates.len() == 1 {
        assert(candidates[0] == candidates.last());
    } else if candidates.len() > 1 {
        let front = candidates.drop_last();
        leader_is_first_with_most_votes(front);
        let before = leader(front);
        let n = candidates.len() - 1;
        assert forall|i: int| 0 <= i < n implies #[trigger] candidates[i] == front[i] by {}
        if candidates.last().candidate_votes > before.1 {
            assert(candidates[n] == candidates.last());
        } else {
            let i = choose|i: int|
                0 <= i < front.len() && (#[trigger] front[i]).candidate_name == before.0
                    && front[i].candidate_votes == before.1 && (forall|j: int|
                    0 <= j < i ==> (#[trigger] front[j]).candidate_votes < before.1) && (forall|
                    j: int,
                |
                    0 <= j < front.len() ==> (#[trigger] front[j]).candidate_votes <= before.1);
            assert(candidates[i] == front[i]);
            assert forall|j: int| 0 <= j < i implies (#[trigger] candidates[j]).candidate_votes
                < leader(candidates).1 by {
                assert(candidates[j] == front[j]);
            }
            assert forall|j: int| 0 <= j < candidates.len() implies (
            #[trigger] candidates[j]).candidate_votes <= leader(candidates).1 by {
                if j < n {
                    assert(candidates[j] == front[j]);
                }
            }
        }
    }
}

} // verus!
