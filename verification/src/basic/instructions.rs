//! The instructions of the basic program. Each is stated twice: as a step,
//! over the addresses of the records it touches, and as an outcome, over the
//! key from which those addresses are derived.
//!
//! An instruction holds the ledger for itself from its first read to its
//! last write: nothing runs between the judgment of a vote and its effect,
//! and the records that an instruction changes change together or not at
//! all.

use crate::address::{
    candidate_address, locate_candidate, locate_poll, poll_address, voter_address, Address,
};
use crate::basic::accounts::{
    GetPollResults, InitializeCandidate, InitializePoll, RegisterVoter, Vote,
};
use crate::basic::ledger::{holds_candidate, holds_poll, holds_voter, Ledger};
use crate::basic::records::{
    cast, fresh_candidate, fresh_poll, refusal, window, with_one_more_option, with_one_more_vote,
    CandidateAccount, ErrorCode, PollAccount, Record, RecordView, VoterAccount,
};
use crate::clock::unix_timestamp;
use crate::error::Failure;
use crate::layout::{byte_len, fits, MAX_DESCRIPTION_LEN, MAX_NAME_LEN};
use crate::window::verdict_at;
use vstd::prelude::*;

verus! {

/// What `initialize_poll` does where the poll's address is `at`. Texts that
/// do not fit are refused. A poll that is there stays as it is; an address
/// taken by another record is a collision; a vacant address gets the poll.
pub open spec fn initialize_poll_step(
    before: Map<Seq<u8>, RecordView>,
    at: Seq<u8>,
    start_time: u64,
    end_time: u64,
    name: Seq<char>,
    description: Seq<char>,
) -> (Result<(), Failure<ErrorCode>>, Map<Seq<u8>, RecordView>) {
    if byte_len(name) > MAX_NAME_LEN || byte_len(description) > MAX_DESCRIPTION_LEN {
        (Err(Failure::InvalidInput), before)
    } else if holds_poll(before, at) {
        (Ok(()), before)
    } else if before.contains_key(at) {
        (Err(Failure::AlreadyExists), before)
    } else {
        (
            Ok(()),
            before.insert(
                at,
                RecordView::Poll(fresh_poll(start_time, end_time, name, description)),
            ),
        )
    }
}

/// What `initialize_poll` does for the poll `poll_id` of a program.
pub open spec fn initialize_poll_outcome(
    before: Map<Seq<u8>, RecordView>,
    program_id: Seq<u8>,
    poll_id: u64,
    start_time: u64,
    end_time: u64,
    name: Seq<char>,
    description: Seq<char>,
) -> (Result<(), Failure<ErrorCode>>, Map<Seq<u8>, RecordView>) {
    match poll_address(program_id, poll_id) {
        Some(at) => initialize_poll_step(before, at, start_time, end_time, name, description),
        None => (Err(Failure::InvalidInput), before),
    }
}

/// Opens the poll `poll_id` with no candidates, unless it is open already:
/// then nothing changes, whatever the arguments. The window is not checked.
pub fn initialize_poll(
    ledger: &mut Ledger,
    signer: &Address,
    poll_id: u64,
    start_time: u64,
    end_time: u64,
    name: String,
    description: String,
) -> (r: Result<(), Failure<ErrorCode>>)
    ensures
        final(ledger).program() == old(ledger).program(),
        ({
            let out = initialize_poll_outcome(
                old(ledger)@,
                old(ledger).program(),
                poll_id,
                start_time,
                end_time,
                name@,
                description@,
            );
            r == out.0 && final(ledger)@ == out.1
        }),
{
    if !fits(name.as_str(), MAX_NAME_LEN) || !fits(description.as_str(), MAX_DESCRIPTION_LEN) {
        return Err(Failure::InvalidInput);
    }
    match InitializePoll::resolve(&ledger.program_id(), signer, poll_id) {
        Some(accounts) => accounts.process(ledger, start_time, end_time, name, description),
        None => Err(Failure::InvalidInput),
    }
}

impl InitializePoll {
    /// Opens a poll at `poll_account`, unless a poll lives there already.
    pub fn process(
        &self,
        ledger: &mut Ledger,
        start_time: u64,
        end_time: u64,
        name: String,
        description: String,
    ) -> (r: Result<(), Failure<ErrorCode>>)
        ensures
            final(ledger).program() == old(ledger).program(),
            ({
                let out = initialize_poll_step(
                    old(ledger)@,
                    self.poll_account@,
                    start_time,
                    end_time,
                    name@,
                    description@,
                );
                r == out.0 && final(ledger)@ == out.1
            }),
    {
        let poll = match PollAccount::open(start_time, end_time, name, description) {
            Some(p) => p,
            None => return Err(Failure::InvalidInput),
        };
        match ledger.record(&self.poll_account) {
            Some(Record::Poll(_)) => Ok(()),
            Some(_) => Err(Failure::AlreadyExists),
            None => {
                ledger.put(self.poll_account, Record::Poll(poll));
                Ok(())
            },
        }
    }
}

/// What `initialize_candidate` does where the poll lives at `poll_at` and the
/// candidate is to live at `candidate_at`. A name that does not fit is
/// refused; then the poll must be there; then the candidate's address must
/// be vacant. On success the candidate is created without votes and the poll
/// counts one more candidate.
pub open spec fn initialize_candidate_step(
    before: Map<Seq<u8>, RecordView>,
    poll_at: Seq<u8>,
    candidate_at: Seq<u8>,
    name: Seq<char>,
) -> (Result<(), Failure<ErrorCode>>, Map<Seq<u8>, RecordView>) {
    if byte_len(name) > MAX_NAME_LEN {
        (Err(Failure::InvalidInput), before)
    } else if !holds_poll(before, poll_at) {
        (Err(Failure::NotFound), before)
    } else if before.contains_key(candidate_at) {
        (Err(Failure::AlreadyExists), before)
    } else {
        (
            Ok(()),
            before.insert(candidate_at, RecordView::Candidate(fresh_candidate(name))).insert(
                poll_at,
                RecordView::Poll(with_one_more_option(before[poll_at]->Poll_0)),
            ),
        )
    }
}

/// What `initialize_candidate` does for the candidate `name` of the poll
/// `poll_id` of a program.
pub open spec fn initialize_candidate_outcome(
    before: Map<Seq<u8>, RecordView>,
    program_id: Seq<u8>,
    poll_id: u64,
    name: Seq<char>,
) -> (Result<(), Failure<ErrorCode>>, Map<Seq<u8>, RecordView>) {
    match (poll_address(program_id, poll_id), candidate_address(program_id, poll_id, name)) {
        (Some(poll_at), Some(candidate_at)) => initialize_candidate_step(
            before,
            poll_at,
            candidate_at,
            name,
        ),
        _ => (Err(Failure::InvalidInput), before),
    }
}

/// Whether the poll `poll_id` of a program is there and counts as many
/// candidates as it can.
pub open spec fn candidate_count_is_full(
    s: Map<Seq<u8>, RecordView>,
    program_id: Seq<u8>,
    poll_id: u64,
) -> bool {
    poll_address(program_id, poll_id) matches Some(at) && holds_poll(s, at)
        && s[at]->Poll_0.poll_option_index >= u64::MAX
}

/// Adds the candidate `candidate` to the poll `poll_id`. A second candidate
/// of the same name in the same poll has the same address, and is refused.
/// Where the candidate would be added, the poll's count must have room for
/// it.
pub fn initialize_candidate(
    ledger: &mut Ledger,
    signer: &Address,
    poll_id: u64,
    candidate: String,
) -> (r: Result<(), Failure<ErrorCode>>)
    requires
        initialize_candidate_outcome(
            old(ledger)@,
            old(ledger).program(),
            poll_id,
            candidate@,
        ).0 is Ok ==> !candidate_count_is_full(old(ledger)@, old(ledger).program(), poll_id),
    ensures
        final(ledger).program() == old(ledger).program(),
        ({
            let out = initialize_candidate_outcome(
                old(ledger)@,
                old(ledger).program(),
                poll_id,
                candidate@,
            );
            r == out.0 && final(ledger)@ == out.1
        }),
{
    if !fits(candidate.as_str(), MAX_NAME_LEN) {
        return Err(Failure::InvalidInput);
    }
    match InitializeCandidate::resolve(&ledger.program_id(), signer, poll_id, candidate.as_str()) {
        Some(accounts) => accounts.process(ledger, candidate),
        None => Err(Failure::InvalidInput),
    }
}

/// Adds the candidate as `initialize_candidate` does, unless the poll is
/// there and its count of candidates is full: then nothing changes and
/// `None` is returned.
pub fn try_initialize_candidate(
    ledger: &mut Ledger,
    signer: &Address,
    poll_id: u64,
    candidate: String,
) -> (r: Option<Result<(), Failure<ErrorCode>>>)
    ensures
        final(ledger).program() == old(ledger).program(),
        r is None <==> candidate_count_is_full(old(ledger)@, old(ledger).program(), poll_id),
        match r {
            None => final(ledger)@ == old(ledger)@,
            Some(done) => {
                let out = initialize_candidate_outcome(
                    old(ledger)@,
                    old(ledger).program(),
                    poll_id,
                    candidate@,
                );
                done == out.0 && final(ledger)@ == out.1
            },
        },
{
    let full = match locate_poll(&ledger.program_id(), poll_id) {
        Some(at) => match ledger.poll(&at) {
            Some(poll) => poll.poll_option_index == u64::MAX,
            None => false,
        },
        None => false,
    };
    if full {
        None
    } else {
        Some(initialize_candidate(ledger, signer, poll_id, candidate))
    }
}

impl InitializeCandidate {
    /// Creates the candidate `candidate` at `candidate_account` and counts it
    /// in the poll at `poll_account`. Where the candidate would be created,
    /// the poll's count must have room for it.
    pub fn process(&self, ledger: &mut Ledger, candidate: String) -> (r: Result<
        (),
        Failure<ErrorCode>,
    >)
        requires
            initialize_candidate_step(
                old(ledger)@,
                self.poll_account@,
                self.candidate_account@,
                candidate@,
            ).0 is Ok ==> old(ledger)@[self.poll_account@]->Poll_0.poll_option_index
                < u64::MAX,
        ensures
            final(ledger).program() == old(ledger).program(),
            ({
                let out = initialize_candidate_step(
                    old(ledger)@,
                    self.poll_account@,
                    self.candidate_account@,
                    candidate@,
                );
                r == out.0 && final(ledger)@ == out.1
            }),
    {
        let created = match CandidateAccount::named(candidate) {
            Some(c) => c,
            None => return Err(Failure::InvalidInput),
        };
        let poll = match ledger.poll(&self.poll_account) {
            Some(p) => {
                if ledger.occupied(&self.candidate_account) {
                    return Err(Failure::AlreadyExists);
                }
                p.with_candidate_counted()
            },
            None => return Err(Failure::NotFound),
        };
        ledger.put(self.candidate_account, Record::Candidate(created));
        ledger.put(self.poll_account, Record::Poll(poll));
        Ok(())
    }
}

/// What `register_voter` does where the registration is to live at `at`. A
/// voter who is registered stays as they are, flag included; an address
/// taken by another record is a collision; a vacant address gets a voter who
/// has not voted.
pub open spec fn register_voter_step(before: Map<Seq<u8>, RecordView>, at: Seq<u8>) -> (
    Result<(), Failure<ErrorCode>>,
    Map<Seq<u8>, RecordView>,
) {
    if holds_voter(before, at) {
        (Ok(()), before)
    } else if before.contains_key(at) {
        (Err(Failure::AlreadyExists), before)
    } else {
        (Ok(()), before.insert(at, RecordView::Voter(VoterAccount { has_voted: false })))
    }
}

/// What `register_voter` does for `voter` and the poll `poll_id` of a program.
pub open spec fn register_voter_outcome(
    before: Map<Seq<u8>, RecordView>,
    program_id: Seq<u8>,
    poll_id: u64,
    voter: Seq<u8>,
) -> (Result<(), Failure<ErrorCode>>, Map<Seq<u8>, RecordView>) {
    match voter_address(program_id, poll_id, voter) {
        Some(at) => register_voter_step(before, at),
        None => (Err(Failure::InvalidInput), before),
    }
}

/// Registers `signer` as a voter of the poll `poll_id`. Registering again
/// changes nothing: a voter who has voted stays so.
pub fn register_voter(ledger: &mut Ledger, signer: &Address, poll_id: u64) -> (r: Result<
    (),
    Failure<ErrorCode>,
>)
    ensures
        final(ledger).program() == old(ledger).program(),
        ({
            let out = register_voter_outcome(
                old(ledger)@,
                old(ledger).program(),
                poll_id,
                signer@,
            );
            r == out.0 && final(ledger)@ == out.1
        }),
{
    match RegisterVoter::resolve(&ledger.program_id(), signer, poll_id) {
        Some(accounts) => accounts.process(ledger),
        None => Err(Failure::InvalidInput),
    }
}

impl RegisterVoter {
    /// Creates a voter who has not voted at `voter_account`, unless a voter
    /// lives there already.
    pub fn process(&self, ledger: &mut Ledger) -> (r: Result<(), Failure<ErrorCode>>)
        ensures
            final(ledger).program() == old(ledger).program(),
            ({
                let out = register_voter_step(old(ledger)@, self.voter_account@);
                r == out.0 && final(ledger)@ == out.1
            }),
    {
        match ledger.record(&self.voter_account) {
            Some(Record::Voter(_)) => Ok(()),
            Some(_) => Err(Failure::AlreadyExists),
            None => {
                ledger.put(self.voter_account, Record::Voter(VoterAccount::register(None)));
                Ok(())
            },
        }
    }
}

/// What a vote at `now` does where the poll, the candidate and the voter
/// live at the given addresses. All three must be there. Then the window and
/// the voter's flag decide, in that order. An accepted vote adds one to the
/// candidate's votes and sets the voter's flag; a refused one changes nothing.
pub open spec fn vote_step(
    before: Map<Seq<u8>, RecordView>,
    poll_at: Seq<u8>,
    candidate_at: Seq<u8>,
    voter_at: Seq<u8>,
    now: int,
) -> (Result<(), Failure<ErrorCode>>, Map<Seq<u8>, RecordView>) {
    if !holds_poll(before, poll_at) || !holds_candidate(before, candidate_at) || !holds_voter(
        before,
        voter_at,
    ) {
        (Err(Failure::NotFound), before)
    } else {
        let poll = before[poll_at]->Poll_0;
        let voter = before[voter_at]->Voter_0;
        match refusal(
            verdict_at(
                window(),
                poll.poll_voting_start as int,
                poll.poll_voting_end as int,
                voter.has_voted,
                now,
            ),
        ) {
            Some(code) => (Err(Failure::Program(code)), before),
            None => (
                Ok(()),
                before.insert(
                    candidate_at,
                    RecordView::Candidate(with_one_more_vote(before[candidate_at]->Candidate_0)),
                ).insert(voter_at, RecordView::Voter(VoterAccount { has_voted: true })),
            ),
        }
    }
}

/// What a vote at `now` by `voter` for `candidate` in the poll `poll_id` of a
/// program does.
pub open spec fn vote_outcome(
    before: Map<Seq<u8>, RecordView>,
    program_id: Seq<u8>,
    voter: Seq<u8>,
    poll_id: u64,
    candidate: Seq<char>,
    now: int,
) -> (Result<(), Failure<ErrorCode>>, Map<Seq<u8>, RecordView>) {
    match (
        poll_address(program_id, poll_id),
        candidate_address(program_id, poll_id, candidate),
        voter_address(program_id, poll_id, voter),
    ) {
        (Some(poll_at), Some(candidate_at), Some(voter_at)) => vote_step(
            before,
            poll_at,
            candidate_at,
            voter_at,
            now,
        ),
        _ => (Err(Failure::InvalidInput), before),
    }
}

/// Whether the candidate `candidate` of the poll `poll_id` of a program is
/// there and has as many votes as it can.
pub open spec fn candidate_votes_are_full(
    s: Map<Seq<u8>, RecordView>,
    program_id: Seq<u8>,
    poll_id: u64,
    candidate: Seq<char>,
) -> bool {
    candidate_address(program_id, poll_id, candidate) matches Some(at) && holds_candidate(s, at)
        && s[at]->Candidate_0.candidate_votes >= u64::MAX
}

/// Casts the vote of `signer` for `candidate` in the poll `poll_id` at the
/// time `now`, in seconds since the epoch. The candidate and the voter
/// change together or not at all. Where the vote would count, the candidate
/// must have room for it.
pub fn vote_at(
    ledger: &mut Ledger,
    signer: &Address,
    poll_id: u64,
    candidate: String,
    now: i64,
) -> (r: Result<(), Failure<ErrorCode>>)
    requires
        vote_outcome(
            old(ledger)@,
            old(ledger).program(),
            signer@,
            poll_id,
            candidate@,
            now as int,
        ).0 is Ok ==> !candidate_votes_are_full(
            old(ledger)@,
            old(ledger).program(),
            poll_id,
            candidate@,
        ),
    ensures
        final(ledger).program() == old(ledger).program(),
        ({
            let out = vote_outcome(
                old(ledger)@,
                old(ledger).program(),
                signer@,
                poll_id,
                candidate@,
                now as int,
            );
            r == out.0 && final(ledger)@ == out.1
        }),
{
    match Vote::resolve(&ledger.program_id(), signer, poll_id, candidate.as_str()) {
        Some(accounts) => accounts.process(ledger, now),
        None => Err(Failure::InvalidInput),
    }
}

impl Vote {
    /// Casts a vote at the time `now` for the candidate at
    /// `candidate_account`, by the voter at `voter_account`, in the poll at
    /// `poll_account`. Where the vote would count, the candidate must have
    /// room for it.
    pub fn process(&self, ledger: &mut Ledger, now: i64) -> (r: Result<(), Failure<ErrorCode>>)
        requires
            vote_step(
                old(ledger)@,
                self.poll_account@,
                self.candidate_account@,
                self.voter_account@,
                now as int,
            ).0 is Ok ==> old(ledger)@[self.candidate_account@]->Candidate_0.candidate_votes
                < u64::MAX,
        ensures
            final(ledger).program() == old(ledger).program(),
            ({
                let out = vote_step(
                    old(ledger)@,
                    self.poll_account@,
                    self.candidate_account@,
                    self.voter_account@,
                    now as int,
                );
                r == out.0 && final(ledger)@ == out.1
            }),
    {
        let outcome = match ledger.poll(&self.poll_account) {
            Some(poll) => match ledger.candidate(&self.candidate_account) {
                Some(running) => match ledger.voter(&self.voter_account) {
                    Some(voter) => cast(poll, running, &voter, now),
                    None => return Err(Failure::NotFound),
                },
                None => return Err(Failure::NotFound),
            },
            None => return Err(Failure::NotFound),
        };
        match outcome {
            Ok((counted, marked)) => {
                ledger.put(self.candidate_account, Record::Candidate(counted));
                ledger.put(self.voter_account, Record::Voter(marked));
                Ok(())
            },
            Err(code) => Err(Failure::Program(code)),
        }
    }
}

/// Casts the vote of `signer` for `candidate` in the poll `poll_id` at the
/// time that the cluster clock gives. Where the clock cannot be read nothing
/// changes; otherwise the vote is cast as `vote_at` casts it at some time.
/// The candidate must have room for the vote if there is a time at which it
/// would count.
pub fn vote(ledger: &mut Ledger, signer: &Address, poll_id: u64, candidate: String) -> (r: Result<
    (),
    Failure<ErrorCode>,
>)
    requires
        forall|now: i64|
            (#[trigger] vote_outcome(
                old(ledger)@,
                old(ledger).program(),
                signer@,
                poll_id,
                candidate@,
                now as int,
            )).0 is Ok ==> !candidate_votes_are_full(
                old(ledger)@,
                old(ledger).program(),
                poll_id,
                candidate@,
            ),
    ensures
        final(ledger).program() == old(ledger).program(),
        (r == Err::<(), Failure<ErrorCode>>(Failure::ClockUnavailable) && final(ledger)@ == old(
            ledger,
        )@) || (exists|now: i64|
            {
                let out = #[trigger] vote_outcome(
                    old(ledger)@,
                    old(ledger).program(),
                    signer@,
                    poll_id,
                    candidate@,
                    now as int,
                );
                r == out.0 && final(ledger)@ == out.1
            }),
{
    match unix_timestamp() {
        Some(now) => vote_at(ledger, signer, poll_id, candidate, now),
        None => Err(Failure::ClockUnavailable),
    }
}

/// Casts the vote as `vote` does, unless the candidate is there and its
/// votes are full: then nothing changes and `None` is returned.
pub fn try_vote(ledger: &mut Ledger, signer: &Address, poll_id: u64, candidate: String) -> (r:
    Option<Result<(), Failure<ErrorCode>>>)
    ensures
        final(ledger).program() == old(ledger).program(),
        r is None <==> candidate_votes_are_full(
            old(ledger)@,
            old(ledger).program(),
            poll_id,
            candidate@,
        ),
        match r {
            None => final(ledger)@ == old(ledger)@,
            Some(done) => (done == Err::<(), Failure<ErrorCode>>(Failure::ClockUnavailable)
                && final(ledger)@ == old(ledger)@) || (exists|now: i64|
                {
                    let out = #[trigger] vote_outcome(
                        old(ledger)@,
                        old(ledger).program(),
                        signer@,
                        poll_id,
                        candidate@,
                        now as int,
                    );
                    done == out.0 && final(ledger)@ == out.1
                }),
        },
{
    let full = match locate_candidate(&ledger.program_id(), poll_id, candidate.as_str()) {
        Some(at) => match ledger.candidate(&at) {
            Some(running) => running.candidate_votes == u64::MAX,
            None => false,
        },
        None => false,
    };
    if full {
        None
    } else {
        Some(vote(ledger, signer, poll_id, candidate))
    }
}

/// The votes of the candidate at `at`: not found where no candidate lives
/// there.
pub open spec fn poll_results_at(s: Map<Seq<u8>, RecordView>, at: Seq<u8>) -> Result<
    nat,
    Failure<ErrorCode>,
> {
    if holds_candidate(s, at) {
        Ok(s[at]->Candidate_0.candidate_votes)
    } else {
        Err(Failure::NotFound)
    }
}

/// The votes of the candidate `candidate` of the poll `poll_id` of a program.
pub open spec fn poll_results(
    s: Map<Seq<u8>, RecordView>,
    program_id: Seq<u8>,
    poll_id: u64,
    candidate: Seq<char>,
) -> Result<nat, Failure<ErrorCode>> {
    match candidate_address(program_id, poll_id, candidate) {
        Some(at) => poll_results_at(s, at),
        None => Err(Failure::InvalidInput),
    }
}

/// Whether `r` reports `results`: the same count, or the same failure.
pub open spec fn reports(
    r: Result<u64, Failure<ErrorCode>>,
    results: Result<nat, Failure<ErrorCode>>,
) -> bool {
    match results {
        Ok(count) => r matches Ok(v) && v as nat == count,
        Err(f) => r == Err::<u64, Failure<ErrorCode>>(f),
    }
}

/// Reads the votes of one candidate. Nothing changes.
pub fn get_poll_results(ledger: &Ledger, poll_id: u64, candidate: String) -> (r: Result<
    u64,
    Failure<ErrorCode>,
>)
    ensures
        reports(r, poll_results(ledger@, ledger.program(), poll_id, candidate@)),
{
    votes_of(ledger, poll_id, candidate.as_str())
}

/// Reads the votes of one candidate by name.
fn votes_of(ledger: &Ledger, poll_id: u64, candidate: &str) -> (r: Result<u64, Failure<ErrorCode>>)
    ensures
        reports(r, poll_results(ledger@, ledger.program(), poll_id, candidate@)),
{
    match GetPollResults::resolve(&ledger.program_id(), poll_id, candidate) {
        Some(accounts) => accounts.process(ledger),
        None => Err(Failure::InvalidInput),
    }
}

impl GetPollResults {
    /// Reads the votes of the candidate at `candidate_account`.
    pub fn process(&self, ledger: &Ledger) -> (r: Result<u64, Failure<ErrorCode>>)
        ensures
            reports(r, poll_results_at(ledger@, self.candidate_account@)),
    {
        match ledger.candidate(&self.candidate_account) {
            Some(c) => Ok(c.candidate_votes),
            None => Err(Failure::NotFound),
        }
    }
}

/// Reads the votes of each of the named candidates of the poll `poll_id`, in
/// the order of the names. The first name that cannot be read decides the
/// failure. Nothing changes.
pub fn tally(ledger: &Ledger, poll_id: u64, candidates: &Vec<String>) -> (r: Result<
    Vec<u64>,
    Failure<ErrorCode>,
>)
    ensures
        match r {
            Ok(counts) => counts@.len() == candidates@.len() && forall|i: int|
                0 <= i < candidates@.len() ==> poll_results(
                    ledger@,
                    ledger.program(),
                    poll_id,
                    #[trigger] candidates@[i]@,
                ) == Ok::<nat, Failure<ErrorCode>>(counts@[i] as nat),
            Err(e) => exists|i: int|
                0 <= i < candidates@.len() && poll_results(
                    ledger@,
                    ledger.program(),
                    poll_id,
                    #[trigger] candidates@[i]@,
                ) == Err::<nat, Failure<ErrorCode>>(e) && forall|j: int|
                    0 <= j < i ==> poll_results(
                        ledger@,
                        ledger.program(),
                        poll_id,
                        #[trigger] candidates@[j]@,
                    ) is Ok,
        },
{
    let mut counts: Vec<u64> = Vec::new();
    let mut i: usize = 0;
    while i < candidates.len()
        invariant
            i <= candidates@.len(),
            counts@.len() == i,
            forall|j: int|
                0 <= j < i ==> poll_results(
                    ledger@,
                    ledger.program(),
                    poll_id,
                    #[trigger] candidates@[j]@,
                ) == Ok::<nat, Failure<ErrorCode>>(counts@[j] as nat),
        decreases candidates@.len() - i,
    {
        match votes_of(ledger, poll_id, candidates[i].as_str()) {
            Ok(votes) => {
                counts.push(votes);
            },
            Err(e) => {
                return Err(e);
            },
        }
        i += 1;
    }
    Ok(counts)
}

} // verus!
