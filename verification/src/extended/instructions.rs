//! The instructions of the extended program. Each is stated twice: as a
//! step, over the addresses of the records it touches, and as an outcome,
//! over the key from which those addresses are derived.
//!
//! An instruction holds the ledger for itself from its first read to its
//! last write: nothing runs between the judgment of a vote and its effect,
//! and the records that an instruction changes change together or not at
//! all.

use crate::address::{
    candidate_address, locate_candidate, locate_poll, poll_address, voter_address, Address,
};
use crate::clock::unix_timestamp;
use crate::error::Failure;
use crate::extended::accounts::{
    GetWinner, InitializeCandidate, InitializePoll, RegisterVoter, Vote,
};
use crate::extended::ledger::{
    address_bytes, all_candidates, candidates_at, holds_candidate, holds_poll, holds_voter,
    shown_at, Ledger,
};
use crate::extended::records::{
    admit_candidate, cast, declare_winner, enroll, first_fault, fresh_candidate, fresh_poll, leader,
    refusal, window, with_one_more_candidate, with_one_more_vote, with_one_more_voter, Candidate,
    CustomError, Poll, Record, RecordView, Voter, Winner,
};
use crate::layout::{byte_len, fits, MAX_DESCRIPTION_LEN, MAX_NAME_LEN};
use crate::window::verdict_at;
use vstd::prelude::*;

verus! {

/// What `initialize_poll` does where the poll's address is `at`. A
/// description that does not fit is refused; so is an address that is
/// taken, by a poll or by anything else; a vacant address gets the poll.
pub open spec fn initialize_poll_step(
    before: Map<Seq<u8>, RecordView>,
    at: Seq<u8>,
    admin: Seq<u8>,
    poll_id: u64,
    description: Seq<char>,
    poll_start: u64,
    poll_end: u64,
) -> (Result<(), Failure<CustomError>>, Map<Seq<u8>, RecordView>) {
    if byte_len(description) > MAX_DESCRIPTION_LEN {
        (Err(Failure::InvalidInput), before)
    } else if before.contains_key(at) {
        (Err(Failure::AlreadyExists), before)
    } else {
        (
            Ok(()),
            before.insert(
                at,
                RecordView::Poll(fresh_poll(poll_id, description, poll_start, poll_end, admin)),
            ),
        )
    }
}

/// What `initialize_poll` by `admin` does for the poll `poll_id` of a
/// program.
pub open spec fn initialize_poll_outcome(
    before: Map<Seq<u8>, RecordView>,
    program_id: Seq<u8>,
    admin: Seq<u8>,
    poll_id: u64,
    description: Seq<char>,
    poll_start: u64,
    poll_end: u64,
) -> (Result<(), Failure<CustomError>>, Map<Seq<u8>, RecordView>) {
    match poll_address(program_id, poll_id) {
        Some(at) => initialize_poll_step(
            before,
            at,
            admin,
            poll_id,
            description,
            poll_start,
            poll_end,
        ),
        None => (Err(Failure::InvalidInput), before),
    }
}

/// Opens the poll `poll_id` with `signer` as its administrator, without
/// candidates or voters. A poll can be opened once. The window is not
/// checked.
pub fn initialize_poll(
    ledger: &mut Ledger,
    signer: &Address,
    poll_id: u64,
    description: String,
    poll_start: u64,
    poll_end: u64,
) -> (r: Result<(), Failure<CustomError>>)
    ensures
        final(ledger).program() == old(ledger).program(),
        ({
            let out = initialize_poll_outcome(
                old(ledger)@,
                old(ledger).program(),
                signer@,
                poll_id,
                description@,
                poll_start,
                poll_end,
            );
            r == out.0 && final(ledger)@ == out.1
        }),
{
    if !fits(description.as_str(), MAX_DESCRIPTION_LEN) {
        return Err(Failure::InvalidInput);
    }
    match InitializePoll::resolve(&ledger.program_id(), signer, poll_id) {
        Some(accounts) => accounts.process(ledger, poll_id, description, poll_start, poll_end),
        None => Err(Failure::InvalidInput),
    }
}

impl InitializePoll {
    /// Opens a poll at `poll`, administered by `signer`, if the address is
    /// vacant.
    pub fn process(
        &self,
        ledger: &mut Ledger,
        poll_id: u64,
        description: String,
        poll_start: u64,
        poll_end: u64,
    ) -> (r: Result<(), Failure<CustomError>>)
        ensures
            final(ledger).program() == old(ledger).program(),
            ({
                let out = initialize_poll_step(
                    old(ledger)@,
                    self.poll@,
                    self.signer@,
                    poll_id,
                    description@,
                    poll_start,
                    poll_end,
                );
                r == out.0 && final(ledger)@ == out.1
            }),
    {
        let poll = match Poll::open(poll_id, description, poll_start, poll_end, self.signer) {
            Some(p) => p,
            None => return Err(Failure::InvalidInput),
        };
        if ledger.occupied(&self.poll) {
            return Err(Failure::AlreadyExists);
        }
        ledger.put(self.poll, Record::Poll(poll));
        Ok(())
    }
}

/// What `initialize_candidate` by `caller` does where the poll lives at
/// `poll_at`, the candidate is to live at `candidate_at`, and the caller
/// shows the candidates at `shown`. A name that does not fit is refused;
/// then the poll must be there; then the candidate's address must be
/// vacant; then the caller must be the administrator; then none of the
/// shown candidates may be unreadable or bear the name. On success the
/// candidate is created without votes and the poll counts one more.
pub open spec fn initialize_candidate_step(
    before: Map<Seq<u8>, RecordView>,
    poll_at: Seq<u8>,
    candidate_at: Seq<u8>,
    caller: Seq<u8>,
    shown: Seq<Seq<u8>>,
    name: Seq<char>,
) -> (Result<(), Failure<CustomError>>, Map<Seq<u8>, RecordView>) {
    if byte_len(name) > MAX_NAME_LEN {
        (Err(Failure::InvalidInput), before)
    } else if !holds_poll(before, poll_at) {
        (Err(Failure::NotFound), before)
    } else if before.contains_key(candidate_at) {
        (Err(Failure::AlreadyExists), before)
    } else if before[poll_at]->Poll_0.admin != caller {
        (Err(Failure::Program(CustomError::NotAdmin)), before)
    } else {
        match first_fault(shown_at(before, shown), name) {
            Some(f) => (Err(f), before),
            None => (
                Ok(()),
                before.insert(candidate_at, RecordView::Candidate(fresh_candidate(name))).insert(
                    poll_at,
                    RecordView::Poll(with_one_more_candidate(before[poll_at]->Poll_0)),
                ),
            ),
        }
    }
}

/// What `initialize_candidate` by `caller` does for the candidate `name` of
/// the poll `poll_id` of a program.
pub open spec fn initialize_candidate_outcome(
    before: Map<Seq<u8>, RecordView>,
    program_id: Seq<u8>,
    caller: Seq<u8>,
    name: Seq<char>,
    poll_id: u64,
    shown: Seq<Seq<u8>>,
) -> (Result<(), Failure<CustomError>>, Map<Seq<u8>, RecordView>) {
    match (poll_address(program_id, poll_id), candidate_address(program_id, poll_id, name)) {
        (Some(poll_at), Some(candidate_at)) => initialize_candidate_step(
            before,
            poll_at,
            candidate_at,
            caller,
            shown,
            name,
        ),
        _ => (Err(Failure::InvalidInput), before),
    }
}

/// Whether the poll `poll_id` of a program is there and counts as many
/// candidates as it can.
pub open spec fn candidate_count_is_full(
    s: Map<Seq<u8>, RecordView>,
    program_id: Seq<u8>,
    poll_id: u64,
) -> bool {
    poll_address(program_id, poll_id) matches Some(at) && holds_poll(s, at)
        && s[at]->Poll_0.candidate_amount >= u64::MAX
}

/// Whether the poll `poll_id` of a program is there and counts as many
/// voters as it can.
pub open spec fn voter_count_is_full(
    s: Map<Seq<u8>, RecordView>,
    program_id: Seq<u8>,
    poll_id: u64,
) -> bool {
    poll_address(program_id, poll_id) matches Some(at) && holds_poll(s, at)
        && s[at]->Poll_0.voter_count >= u64::MAX
}

/// Whether `voter` is registered with the poll `poll_id` of a program.
pub open spec fn is_registered(
    s: Map<Seq<u8>, RecordView>,
    program_id: Seq<u8>,
    voter: Seq<u8>,
    poll_id: u64,
) -> bool {
    voter_address(program_id, poll_id, voter) matches Some(at) && holds_voter(s, at)
}

/// Whether the candidate `candidate` of the poll `poll_id` of a program is
/// there and has as many votes as it can.
pub open spec fn candidate_votes_are_full(
    s: Map<Seq<u8>, RecordView>,
    program_id: Seq<u8>,
    candidate: Seq<char>,
    poll_id: u64,
) -> bool {
    candidate_address(program_id, poll_id, candidate) matches Some(at) && holds_candidate(s, at)
        && s[at]->Candidate_0.candidate_votes >= u64::MAX
}

/// Adds the candidate `candidate_name` to the poll `poll_id` on behalf of
/// `signer`, who shows the candidates at `remaining_accounts`. Only those
/// are checked for the name: the ledger is not searched. A second
/// candidate of the same name in the same poll has the same address, and
/// is refused for that. Where the candidate would be added, the poll's
/// count must have room for it.
pub fn initialize_candidate(
    ledger: &mut Ledger,
    signer: &Address,
    remaining_accounts: &Vec<Address>,
    candidate_name: String,
    poll_id: u64,
) -> (r: Result<(), Failure<CustomError>>)
    requires
        initialize_candidate_outcome(
            old(ledger)@,
            old(ledger).program(),
            signer@,
            candidate_name@,
            poll_id,
            address_bytes(remaining_accounts@),
        ).0 is Ok ==> !candidate_count_is_full(old(ledger)@, old(ledger).program(), poll_id),
    ensures
        final(ledger).program() == old(ledger).program(),
        ({
            let out = initialize_candidate_outcome(
                old(ledger)@,
                old(ledger).program(),
                signer@,
                candidate_name@,
                poll_id,
                address_bytes(remaining_accounts@),
            );
            r == out.0 && final(ledger)@ == out.1
        }),
{
    if !fits(candidate_name.as_str(), MAX_NAME_LEN) {
        return Err(Failure::InvalidInput);
    }
    match InitializeCandidate::resolve(
        &ledger.program_id(),
        signer,
        candidate_name.as_str(),
        poll_id,
    ) {
        Some(accounts) => accounts.process(ledger, remaining_accounts, candidate_name),
        None => Err(Failure::InvalidInput),
    }
}

/// Adds the candidate as `initialize_candidate` does, unless the poll is
/// there and its count of candidates is full: then nothing changes and
/// `None` is returned.
pub fn try_initialize_candidate(
    ledger: &mut Ledger,
    signer: &Address,
    remaining_accounts: &Vec<Address>,
    candidate_name: String,
    poll_id: u64,
) -> (r: Option<Result<(), Failure<CustomError>>>)
    ensures
        final(ledger).program() == old(ledger).program(),
        r is None <==> candidate_count_is_full(old(ledger)@, old(ledger).program(), poll_id),
        match r {
            None => final(ledger)@ == old(ledger)@,
            Some(done) => {
                let out = initialize_candidate_outcome(
                    old(ledger)@,
                    old(ledger).program(),
                    signer@,
                    candidate_name@,
                    poll_id,
                    address_bytes(remaining_accounts@),
                );
                done == out.0 && final(ledger)@ == out.1
            },
        },
{
    let full = match locate_poll(&ledger.program_id(), poll_id) {
        Some(at) => match ledger.poll(&at) {
            Some(poll) => poll.candidate_amount == u64::MAX,
            None => false,
        },
        None => false,
    };
    if full {
        None
    } else {
        Some(initialize_candidate(ledger, signer, remaining_accounts, candidate_name, poll_id))
    }
}

impl InitializeCandidate {
    /// Creates the candidate `candidate_name` at `candidate` and counts it in
    /// the poll at `poll`, on behalf of `signer`, who shows the candidates at
    /// `remaining_accounts`. Where the candidate would be created, the
    /// poll's count must have room for it.
    pub fn process(
        &self,
        ledger: &mut Ledger,
        remaining_accounts: &Vec<Address>,
        candidate_name: String,
    ) -> (r: Result<(), Failure<CustomError>>)
        requires
            initialize_candidate_step(
                old(ledger)@,
                self.poll@,
                self.candidate@,
                self.signer@,
                address_bytes(remaining_accounts@),
                candidate_name@,
            ).0 is Ok ==> old(ledger)@[self.poll@]->Poll_0.candidate_amount < u64::MAX,
        ensures
            final(ledger).program() == old(ledger).program(),
            ({
                let out = initialize_candidate_step(
                    old(ledger)@,
                    self.poll@,
                    self.candidate@,
                    self.signer@,
                    address_bytes(remaining_accounts@),
                    candidate_name@,
                );
                r == out.0 && final(ledger)@ == out.1
            }),
    {
        if !fits(candidate_name.as_str(), MAX_NAME_LEN) {
            return Err(Failure::InvalidInput);
        }
        let shown = ledger.show(remaining_accounts);
        let counted = match ledger.poll(&self.poll) {
            Some(poll) => {
                if ledger.occupied(&self.candidate) {
                    return Err(Failure::AlreadyExists);
                }
                match admit_candidate(poll, &self.signer, &shown, &candidate_name) {
                    Ok(p) => p,
                    Err(f) => return Err(f),
                }
            },
            None => return Err(Failure::NotFound),
        };
        let created = match Candidate::named(candidate_name) {
            Some(c) => c,
            None => return Err(Failure::InvalidInput),
        };
        ledger.put(self.candidate, Record::Candidate(created));
        ledger.put(self.poll, Record::Poll(counted));
        Ok(())
    }
}

/// What `register_voter` does where the registration is to live at
/// `voter_at` and the poll lives at `poll_at`. A voter who is registered
/// stays as they are, flag included, and is not counted again; an address
/// taken by another record is a collision; otherwise the poll must be
/// there, and the address gets a voter who has not voted while the poll
/// counts one more voter.
pub open spec fn register_voter_step(
    before: Map<Seq<u8>, RecordView>,
    voter_at: Seq<u8>,
    poll_at: Seq<u8>,
) -> (Result<(), Failure<CustomError>>, Map<Seq<u8>, RecordView>) {
    if holds_voter(before, voter_at) {
        (Ok(()), before)
    } else if before.contains_key(voter_at) {
        (Err(Failure::AlreadyExists), before)
    } else if !holds_poll(before, poll_at) {
        (Err(Failure::NotFound), before)
    } else {
        (
            Ok(()),
            before.insert(voter_at, RecordView::Voter(Voter { has_voted: false })).insert(
                poll_at,
                RecordView::Poll(with_one_more_voter(before[poll_at]->Poll_0)),
            ),
        )
    }
}

/// What `register_voter` does for `voter` and the poll `poll_id` of a program.
pub open spec fn register_voter_outcome(
    before: Map<Seq<u8>, RecordView>,
    program_id: Seq<u8>,
    voter: Seq<u8>,
    poll_id: u64,
) -> (Result<(), Failure<CustomError>>, Map<Seq<u8>, RecordView>) {
    match (voter_address(program_id, poll_id, voter), poll_address(program_id, poll_id)) {
        (Some(voter_at), Some(poll_at)) => register_voter_step(before, voter_at, poll_at),
        _ => (Err(Failure::InvalidInput), before),
    }
}

/// Registers `signer` as a voter of the poll `poll_id` and counts them.
/// Registering again changes nothing: a voter who has voted stays so, and
/// nobody is counted twice. Where a voter would be counted, the poll's count
/// must have room for them.
pub fn register_voter(ledger: &mut Ledger, signer: &Address, poll_id: u64) -> (r: Result<
    (),
    Failure<CustomError>,
>)
    requires
        register_voter_outcome(old(ledger)@, old(ledger).program(), signer@, poll_id).0 is Ok
            && !is_registered(old(ledger)@, old(ledger).program(), signer@, poll_id)
            ==> !voter_count_is_full(old(ledger)@, old(ledger).program(), poll_id),
    ensures
        final(ledger).program() == old(ledger).program(),
        ({
            let out = register_voter_outcome(
                old(ledger)@,
                old(ledger).program(),
                signer@,
                poll_id,
            );
            r == out.0 && final(ledger)@ == out.1
        }),
{
    match RegisterVoter::resolve(&ledger.program_id(), signer, poll_id) {
        Some(accounts) => accounts.process(ledger),
        None => Err(Failure::InvalidInput),
    }
}

/// Registers the voter as `register_voter` does, unless the poll is there
/// and its count of voters is full: then nothing changes and `None` is
/// returned.
pub fn try_register_voter(ledger: &mut Ledger, signer: &Address, poll_id: u64) -> (r: Option<
    Result<(), Failure<CustomError>>,
>)
    ensures
        final(ledger).program() == old(ledger).program(),
        r is None <==> voter_count_is_full(old(ledger)@, old(ledger).program(), poll_id),
        match r {
            None => final(ledger)@ == old(ledger)@,
            Some(done) => {
                let out = register_voter_outcome(
                    old(ledger)@,
                    old(ledger).program(),
                    signer@,
                    poll_id,
                );
                done == out.0 && final(ledger)@ == out.1
            },
        },
{
    let full = match locate_poll(&ledger.program_id(), poll_id) {
        Some(at) => match ledger.poll(&at) {
            Some(poll) => poll.voter_count == u64::MAX,
            None => false,
        },
        None => false,
    };
    if full {
        None
    } else {
        Some(register_voter(ledger, signer, poll_id))
    }
}

impl RegisterVoter {
    /// Creates a voter who has not voted at `voter` and counts them in the
    /// poll at `poll`, unless a voter lives there already. Where a voter
    /// would be counted, the poll's count must have room for them.
    pub fn process(&self, ledger: &mut Ledger) -> (r: Result<(), Failure<CustomError>>)
        requires
            register_voter_step(old(ledger)@, self.voter@, self.poll@).0 is Ok && !holds_voter(
                old(ledger)@,
                self.voter@,
            ) ==> old(ledger)@[self.poll@]->Poll_0.voter_count < u64::MAX,
        ensures
            final(ledger).program() == old(ledger).program(),
            ({
                let out = register_voter_step(old(ledger)@, self.voter@, self.poll@);
                r == out.0 && final(ledger)@ == out.1
            }),
    {
        match ledger.record(&self.voter) {
            Some(Record::Voter(_)) => {
                return Ok(());
            },
            Some(_) => {
                return Err(Failure::AlreadyExists);
            },
            None => {},
        }
        let (voter, counted) = match ledger.poll(&self.poll) {
            Some(poll) => enroll(None, poll),
            None => return Err(Failure::NotFound),
        };
        ledger.put(self.voter, Record::Voter(voter));
        ledger.put(self.poll, Record::Poll(counted));
        Ok(())
    }
}

/// What a vote at `now` does where the poll, the candidate and the voter
/// live at the given addresses. All three must be there. Then the window and
/// the voter's flag decide, in that order. An accepted vote adds one to the
/// candidate's votes and sets the voter's flag; a refused one changes nothing.
pub open spec fn vote_step(
    before: Map<Seq<u8>, RecordView>,
    poll_at: Seq<u8>,
    candidate_at: Seq<u8>,
    voter_at: Seq<u8>,
    now: int,
) -> (Result<(), Failure<CustomError>>, Map<Seq<u8>, RecordView>) {
    if !holds_poll(before, poll_at) || !holds_candidate(before, candidate_at) || !holds_voter(
        before,
        voter_at,
    ) {
        (Err(Failure::NotFound), before)
    } else {
        let poll = before[poll_at]->Poll_0;
        let voter = before[voter_at]->Voter_0;
        match refusal(
            verdict_at(
                window(),
                poll.poll_start as int,
                poll.poll_end as int,
                voter.has_voted,
                now,
            ),
        ) {
            Some(code) => (Err(Failure::Program(code)), before),
            None => (
                Ok(()),
                before.insert(
                    candidate_at,
                    RecordView::Candidate(with_one_more_vote(before[candidate_at]->Candidate_0)),
                ).insert(voter_at, RecordView::Voter(Voter { has_voted: true })),
            ),
        }
    }
}

/// What a vote at `now` by `voter` for `candidate` in the poll `poll_id` of a
/// program does.
pub open spec fn vote_outcome(
    before: Map<Seq<u8>, RecordView>,
    program_id: Seq<u8>,
    voter: Seq<u8>,
    candidate: Seq<char>,
    poll_id: u64,
    now: int,
) -> (Result<(), Failure<CustomError>>, Map<Seq<u8>, RecordView>) {
    match (
        poll_address(program_id, poll_id),
        candidate_address(program_id, poll_id, candidate),
        voter_address(program_id, poll_id, voter),
    ) {
        (Some(poll_at), Some(candidate_at), Some(voter_at)) => vote_step(
            before,
            poll_at,
            candidate_at,
            voter_at,
            now,
        ),
        _ => (Err(Failure::InvalidInput), before),
    }
}

/// Casts the vote of `signer` for `candidate_name` in the poll `poll_id` at
/// the time `now`, in seconds since the epoch. The candidate and the voter
/// change together or not at all. Where the vote would count, the candidate
/// must have room for it.
pub fn vote_at(
    ledger: &mut Ledger,
    signer: &Address,
    candidate_name: String,
    poll_id: u64,
    now: i64,
) -> (r: Result<(), Failure<CustomError>>)
    requires
        vote_outcome(
            old(ledger)@,
            old(ledger).program(),
            signer@,
            candidate_name@,
            poll_id,
            now as int,
        ).0 is Ok ==> !candidate_votes_are_full(
            old(ledger)@,
            old(ledger).program(),
            candidate_name@,
            poll_id,
        ),
    ensures
        final(ledger).program() == old(ledger).program(),
        ({
            let out = vote_outcome(
                old(ledger)@,
                old(ledger).program(),
                signer@,
                candidate_name@,
                poll_id,
                now as int,
            );
            r == out.0 && final(ledger)@ == out.1
        }),
{
    match Vote::resolve(&ledger.program_id(), signer, candidate_name.as_str(), poll_id) {
        Some(accounts) => accounts.process(ledger, now),
        None => Err(Failure::InvalidInput),
    }
}

impl Vote {
    /// Casts a vote at the time `now` for the candidate at `candidate`, by
    /// the voter at `voter`, in the poll at `poll`. Where the vote would
    /// count, the candidate must have room for it.
    pub fn process(&self, ledger: &mut Ledger, now: i64) -> (r: Result<(), Failure<CustomError>>)
        requires
            vote_step(old(ledger)@, self.poll@, self.candidate@, self.voter@, now as int).0 is Ok
                ==> old(ledger)@[self.candidate@]->Candidate_0.candidate_votes < u64::MAX,
        ensures
            final(ledger).program() == old(ledger).program(),
            ({
                let out = vote_step(
                    old(ledger)@,
                    self.poll@,
                    self.candidate@,
                    self.voter@,
                    now as int,
                );
                r == out.0 && final(ledger)@ == out.1
            }),
    {
        let outcome = match ledger.poll(&self.poll) {
            Some(poll) => match ledger.candidate(&self.candidate) {
                Some(running) => match ledger.voter(&self.voter) {
                    Some(voter) => cast(poll, running, &voter, now),
                    None => return Err(Failure::NotFound),
                },
                None => return Err(Failure::NotFound),
            },
            None => return Err(Failure::NotFound),
        };
        match outcome {
            Ok((counted, marked)) => {
                ledger.put(self.candidate, Record::Candidate(counted));
                ledger.put(self.voter, Record::Voter(marked));
                Ok(())
            },
            Err(code) => Err(Failure::Program(code)),
        }
    }
}

/// Casts the vote of `signer` for `candidate_name` in the poll `poll_id` at
/// the time that the cluster clock gives. Where the clock cannot be read
/// nothing changes; otherwise the vote is cast as `vote_at` casts it at
/// some time. The candidate must have room for the vote if there is a time
/// at which it would count.
pub fn vote(ledger: &mut Ledger, signer: &Address, candidate_name: String, poll_id: u64) -> (r:
    Result<(), Failure<CustomError>>)
    requires
        forall|now: i64|
            (#[trigger] vote_outcome(
                old(ledger)@,
                old(ledger).program(),
                signer@,
                candidate_name@,
                poll_id,
                now as int,
            )).0 is Ok ==> !candidate_votes_are_full(
                old(ledger)@,
                old(ledger).program(),
                candidate_name@,
                poll_id,
            ),
    ensures
        final(ledger).program() == old(ledger).program(),
        (r == Err::<(), Failure<CustomError>>(Failure::ClockUnavailable) && final(ledger)@ == old(
            ledger,
        )@) || (exists|now: i64|
            {
                let out = #[trigger] vote_outcome(
                    old(ledger)@,
                    old(ledger).program(),
                    signer@,
                    candidate_name@,
                    poll_id,
                    now as int,
                );
                r == out.0 && final(ledger)@ == out.1
            }),
{
    match unix_timestamp() {
        Some(now) => vote_at(ledger, signer, candidate_name, poll_id, now),
        None => Err(Failure::ClockUnavailable),
    }
}

/// Casts the vote as `vote` does, unless the candidate is there and its
/// votes are full: then nothing changes and `None` is returned.
pub fn try_vote(ledger: &mut Ledger, signer: &Address, candidate_name: String, poll_id: u64) -> (r:
    Option<Result<(), Failure<CustomError>>>)
    ensures
        final(ledger).program() == old(ledger).program(),
        r is None <==> candidate_votes_are_full(
            old(ledger)@,
            old(ledger).program(),
            candidate_name@,
            poll_id,
        ),
        match r {
            None => final(ledger)@ == old(ledger)@,
            Some(done) => (done == Err::<(), Failure<CustomError>>(Failure::ClockUnavailable)
                && final(ledger)@ == old(ledger)@) || (exists|now: i64|
                {
                    let out = #[trigger] vote_outcome(
                        old(ledger)@,
                        old(ledger).program(),
                        signer@,
                        candidate_name@,
                        poll_id,
                        now as int,
                    );
                    done == out.0 && final(ledger)@ == out.1
                }),
        },
{
    let full = match locate_candidate(&ledger.program_id(), poll_id, candidate_name.as_str()) {
        Some(at) => match ledger.candidate(&at) {
            Some(running) => running.candidate_votes == u64::MAX,
            None => false,
        },
        None => false,
    };
    if full {
        None
    } else {
        Some(vote(ledger, signer, candidate_name, poll_id))
    }
}

/// Why `get_winner` fails where the poll lives at `poll_at`, if it does:
/// the poll is not there, or one of the shown addresses holds no candidate.
pub open spec fn winner_failure_at(
    s: Map<Seq<u8>, RecordView>,
    poll_at: Seq<u8>,
    shown: Seq<Seq<u8>>,
) -> Option<Failure<CustomError>> {
    if !holds_poll(s, poll_at) || !all_candidates(s, shown) {
        Some(Failure::NotFound)
    } else {
        None
    }
}

/// Why `get_winner` fails for the poll `poll_id` of a program, if it does.
pub open spec fn winner_failure(
    s: Map<Seq<u8>, RecordView>,
    program_id: Seq<u8>,
    poll_id: u64,
    shown: Seq<Seq<u8>>,
) -> Option<Failure<CustomError>> {
    match poll_address(program_id, poll_id) {
        None => Some(Failure::InvalidInput),
        Some(at) => winner_failure_at(s, at, shown),
    }
}

/// Names the winner of the poll `poll_id` among the candidates at
/// `remaining_accounts`, taken in that order: the first of them with the
/// most votes, also where that is no votes at all, and nobody only where
/// no candidate is shown. The ledger is not searched for candidates, and
/// nothing changes.
pub fn get_winner(ledger: &Ledger, remaining_accounts: &Vec<Address>, poll_id: u64) -> (r: Result<
    Winner,
    Failure<CustomError>,
>)
    ensures
        match winner_failure(
            ledger@,
            ledger.program(),
            poll_id,
            address_bytes(remaining_accounts@),
        ) {
            Some(f) => r == Err::<Winner, Failure<CustomError>>(f),
            None => r matches Ok(w) && (w.name@, w.votes as nat) == leader(
                candidates_at(ledger@, address_bytes(remaining_accounts@)),
            ) && w.turnout.votes == w.votes && w.turnout.voters == ledger@[poll_address(
                ledger.program(),
                poll_id,
            )->Some_0]->Poll_0.voter_count,
        },
{
    match GetWinner::resolve(&ledger.program_id(), poll_id) {
        Some(accounts) => accounts.process(ledger, remaining_accounts),
        None => Err(Failure::InvalidInput),
    }
}

impl GetWinner {
    /// Names the winner of the poll at `poll` among the candidates at
    /// `remaining_accounts`, taken in that order.
    pub fn process(&self, ledger: &Ledger, remaining_accounts: &Vec<Address>) -> (r: Result<
        Winner,
        Failure<CustomError>,
    >)
        ensures
            match winner_failure_at(ledger@, self.poll@, address_bytes(remaining_accounts@)) {
                Some(f) => r == Err::<Winner, Failure<CustomError>>(f),
                None => r matches Ok(w) && (w.name@, w.votes as nat) == leader(
                    candidates_at(ledger@, address_bytes(remaining_accounts@)),
                ) && w.turnout.votes == w.votes && w.turnout.voters
                    == ledger@[self.poll@]->Poll_0.voter_count,
            },
    {
        let poll = match ledger.poll(&self.poll) {
            Some(p) => p,
            None => return Err(Failure::NotFound),
        };
        let candidates = match ledger.candidates(remaining_accounts) {
            Some(c) => c,
            None => return Err(Failure::NotFound),
        };
        Ok(declare_winner(poll, &candidates))
    }
}

} // verus!
