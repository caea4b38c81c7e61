//! What holds of the instructions of the extended program, whatever the
//! records and the arguments.

use crate::address::{candidate_address, poll_address, voter_address};
use crate::error::Failure;
use crate::extended::instructions::{
    initialize_candidate_outcome, initialize_candidate_step, initialize_poll_outcome,
    initialize_poll_step, register_voter_outcome, register_voter_step, vote_outcome, vote_step,
};
use crate::extended::ledger::{holds_candidate, holds_poll, holds_voter};
use crate::extended::records::{
    candidate_space, first_fault, fresh_candidate, fresh_poll, percent_of, poll_space, window,
    with_one_more_candidate, with_one_more_vote, with_one_more_voter, CandidateView, CustomError,
    RecordView, Voter, CANDIDATE_SPACE, POLL_SPACE,
};
use crate::layout::{byte_len, MAX_DESCRIPTION_LEN, MAX_NAME_LEN};
use vstd::prelude::*;

verus! {

/// A poll cannot be opened twice: after an opening that succeeds, a second
/// one for the same poll fails because the address is taken, whoever asks
/// and whatever they ask for, and changes nothing.
pub proof fn second_opening_is_refused(
    before: Map<Seq<u8>, RecordView>,
    program_id: Seq<u8>,
    poll_id: u64,
    first: (Seq<u8>, Seq<char>, u64, u64),
    second: (Seq<u8>, Seq<char>, u64, u64),
)
    requires
        initialize_poll_outcome(before, program_id, first.0, poll_id, first.1, first.2, first.3).0
            is Ok,
        byte_len(second.1) <= MAX_DESCRIPTION_LEN,
    ensures
        ({
            let opened = initialize_poll_outcome(
                before,
                program_id,
                first.0,
                poll_id,
                first.1,
                first.2,
                first.3,
            ).1;
            initialize_poll_outcome(
                opened,
                program_id,
                second.0,
                poll_id,
                second.1,
                second.2,
                second.3,
            ) == (Err::<(), Failure<CustomError>>(Failure::AlreadyExists), opened)
        }),
{
}

/// No call of `initialize_poll` changes a poll that is there.
pub proof fn opening_never_overwrites(
    before: Map<Seq<u8>, RecordView>,
    program_id: Seq<u8>,
    poll_id: u64,
    admin: Seq<u8>,
    description: Seq<char>,
    poll_start: u64,
    poll_end: u64,
)
    requires
        poll_address(program_id, poll_id) is Some,
        before.contains_key(poll_address(program_id, poll_id)->Some_0),
    ensures
        initialize_poll_outcome(
            before,
            program_id,
            admin,
            poll_id,
            description,
            poll_start,
            poll_end,
        ).1 == before,
        initialize_poll_outcome(
            before,
            program_id,
            admin,
            poll_id,
            description,
            poll_start,
            poll_end,
        ).0 is Err,
{
}

/// Of two calls that add a candidate of one name to one poll, the second
/// fails because the address is taken, whoever makes it and whatever they
/// show, and changes nothing: once the first has succeeded, exactly one
/// candidate has been created.
pub proof fn same_candidate_is_created_once(
    before: Map<Seq<u8>, RecordView>,
    program_id: Seq<u8>,
    name: Seq<char>,
    poll_id: u64,
    first: (Seq<u8>, Seq<Seq<u8>>),
    second: (Seq<u8>, Seq<Seq<u8>>),
)
    requires
        initialize_candidate_outcome(before, program_id, first.0, name, poll_id, first.1).0 is Ok,
    ensures
        ({
            let created = initialize_candidate_outcome(
                before,
                program_id,
                first.0,
                name,
                poll_id,
                first.1,
            ).1;
            initialize_candidate_outcome(created, program_id, second.0, name, poll_id, second.1)
                == (Err::<(), Failure<CustomError>>(Failure::AlreadyExists), created)
        }),
{
}

/// Only the administrator of a poll adds candidates to it: where a call of
/// `initialize_candidate` succeeds, the caller is the one whom the poll
/// records.
pub proof fn only_the_administrator_adds_candidates(
    before: Map<Seq<u8>, RecordView>,
    program_id: Seq<u8>,
    caller: Seq<u8>,
    name: Seq<char>,
    poll_id: u64,
    shown: Seq<Seq<u8>>,
)
    requires
        initialize_candidate_outcome(before, program_id, caller, name, poll_id, shown).0 is Ok,
    ensures
        before[poll_address(program_id, poll_id)->Some_0]->Poll_0.admin == caller,
{
}

/// No fault is found among the shown candidates exactly where each of them
/// could be read and none bears the name.
pub proof fn faults_are_the_unreadable_and_the_namesakes(
    shown: Seq<Option<CandidateView>>,
    name: Seq<char>,
)
    ensures
        first_fault(shown, name) is None <==> forall|i: int|
            0 <= i < shown.len() ==> (#[trigger] shown[i]) is Some
                && shown[i]->Some_0.candidate_name != name,
    decreases shown.len(),
{
    if shown.len() > 0 {
        let front = shown.drop_last();
        faults_are_the_unreadable_and_the_namesakes(front, name);
        assert forall|i: int| 0 <= i < front.len() implies #[trigger] front[i] == shown[i] by {}
        if first_fault(shown, name) is None {
            assert forall|i: int| 0 <= i < shown.len() implies (#[trigger] shown[i]) is Some
                && shown[i]->Some_0.candidate_name != name by {
                if i < shown.len() - 1 {
                    assert(shown[i] == front[i]);
                }
            }
        } else if first_fault(front, name) is Some {
            let i = choose|i: int|
                0 <= i < front.len() && !((#[trigger] front[i]) is Some
                    && front[i]->Some_0.candidate_name != name);
            assert(shown[i] == front[i]);
        } else {
            assert(shown[shown.len() - 1] == shown.last());
        }
    }
}

/// A vote that succeeds adds exactly one vote to its candidate and marks the
/// voter. A second vote by the same voter in the same poll, for any candidate
/// that is there and at any time at which voting is open, fails because the
/// voter has voted, and changes nothing.
pub proof fn one_vote_for_each_voter(
    before: Map<Seq<u8>, RecordView>,
    program_id: Seq<u8>,
    voter: Seq<u8>,
    candidate: Seq<char>,
    poll_id: u64,
    now: int,
    other: Seq<char>,
    later: int,
)
    requires
        vote_outcome(before, program_id, voter, candidate, poll_id, now).0 is Ok,
        candidate_address(program_id, poll_id, other) is Some,
        holds_candidate(before, candidate_address(program_id, poll_id, other)->Some_0),
        ({
            let poll = before[poll_address(program_id, poll_id)->Some_0]->Poll_0;
            !window().before_start(poll.poll_start as int, later) && !window().after_end(
                poll.poll_end as int,
                later,
            )
        }),
    ensures
        ({
            let voted = vote_outcome(before, program_id, voter, candidate, poll_id, now).1;
            let at = candidate_address(program_id, poll_id, candidate)->Some_0;
            let registration = voter_address(program_id, poll_id, voter)->Some_0;
            &&& holds_candidate(voted, at)
            &&& voted[at]->Candidate_0.candidate_votes == before[at]->Candidate_0.candidate_votes
                + 1
            &&& voted[registration] == RecordView::Voter(Voter { has_voted: true })
            &&& vote_outcome(voted, program_id, voter, other, poll_id, later) == (
                Err::<(), Failure<CustomError>>(Failure::Program(CustomError::AlreadyVoted)),
                voted,
            )
        }),
{
}

/// Voting is open at the very start and at the very end of a poll whose
/// start does not lie after its end: there the vote of a voter who has not
/// voted is accepted.
pub proof fn window_is_open_from_start_through_end(
    before: Map<Seq<u8>, RecordView>,
    program_id: Seq<u8>,
    voter: Seq<u8>,
    candidate: Seq<char>,
    poll_id: u64,
)
    requires
        poll_address(program_id, poll_id) is Some,
        candidate_address(program_id, poll_id, candidate) is Some,
        voter_address(program_id, poll_id, voter) is Some,
        holds_poll(before, poll_address(program_id, poll_id)->Some_0),
        holds_candidate(before, candidate_address(program_id, poll_id, candidate)->Some_0),
        holds_voter(before, voter_address(program_id, poll_id, voter)->Some_0),
        ({
            let poll = before[poll_address(program_id, poll_id)->Some_0]->Poll_0;
            let registration = before[voter_address(program_id, poll_id, voter)->Some_0]->Voter_0;
            poll.poll_start <= poll.poll_end && !registration.has_voted
        }),
    ensures
        ({
            let poll = before[poll_address(program_id, poll_id)->Some_0]->Poll_0;
            &&& vote_outcome(
                before,
                program_id,
                voter,
                candidate,
                poll_id,
                poll.poll_start as int,
            ).0 == Ok::<(), Failure<CustomError>>(())
            &&& vote_outcome(before, program_id, voter, candidate, poll_id, poll.poll_end as int).0
                == Ok::<(), Failure<CustomError>>(())
        }),
{
}

/// Registering a voter who is registered changes nothing: a voter who has
/// voted is not turned back into one who has not, and the poll's count of
/// voters stays.
pub proof fn registering_again_keeps_the_flag(
    before: Map<Seq<u8>, RecordView>,
    program_id: Seq<u8>,
    voter: Seq<u8>,
    poll_id: u64,
)
    requires
        voter_address(program_id, poll_id, voter) is Some,
        poll_address(program_id, poll_id) is Some,
        holds_voter(before, voter_address(program_id, poll_id, voter)->Some_0),
    ensures
        register_voter_outcome(before, program_id, voter, poll_id) == (
            Ok::<(), Failure<CustomError>>(()),
            before,
        ),
{
}

/// After a registration that succeeds, a second one for the same voter and
/// poll succeeds too and changes nothing.
pub proof fn second_registration_changes_nothing(
    before: Map<Seq<u8>, RecordView>,
    program_id: Seq<u8>,
    voter: Seq<u8>,
    poll_id: u64,
)
    requires
        register_voter_outcome(before, program_id, voter, poll_id).0 is Ok,
    ensures
        ({
            let registered = register_voter_outcome(before, program_id, voter, poll_id).1;
            register_voter_outcome(registered, program_id, voter, poll_id) == (
                Ok::<(), Failure<CustomError>>(()),
                registered,
            )
        }),
{
}

/// Without registered voters the turnout is zero, whatever the votes.
pub proof fn no_voters_no_turnout(votes: nat)
    ensures
        percent_of(votes, 0) == 0,
{
}

/// A record that `initialize_poll` or `initialize_candidate` creates fits
/// the space set aside for it, and goes on fitting: votes and counts change
/// no text.
pub proof fn created_records_fit(
    poll_id: u64,
    description: Seq<char>,
    poll_start: u64,
    poll_end: u64,
    admin: Seq<u8>,
    name: Seq<char>,
)
    requires
        byte_len(name) <= MAX_NAME_LEN,
        byte_len(description) <= MAX_DESCRIPTION_LEN,
    ensures
        poll_space(fresh_poll(poll_id, description, poll_start, poll_end, admin)) <= POLL_SPACE,
        poll_space(
            with_one_more_candidate(fresh_poll(poll_id, description, poll_start, poll_end, admin)),
        ) <= POLL_SPACE,
        poll_space(
            with_one_more_voter(fresh_poll(poll_id, description, poll_start, poll_end, admin)),
        ) <= POLL_SPACE,
        candidate_space(fresh_candidate(name)) <= CANDIDATE_SPACE,
        candidate_space(with_one_more_vote(fresh_candidate(name))) <= CANDIDATE_SPACE,
{
}

/// Whether `after` is what the record `before` may have become. A poll keeps
/// its identifier, its description, its window and its administrator, and
/// its counts do not fall. A candidate keeps its name, and its votes do not
/// fall. A voter who has voted stays so. No record turns into one of
/// another kind.
pub open spec fn follows(before: RecordView, after: RecordView) -> bool {
    match (before, after) {
        (RecordView::Poll(b), RecordView::Poll(a)) => a.poll_id == b.poll_id && a.description
            == b.description && a.poll_start == b.poll_start && a.poll_end == b.poll_end
            && a.admin == b.admin && a.candidate_amount >= b.candidate_amount && a.voter_count
            >= b.voter_count,
        (RecordView::Candidate(b), RecordView::Candidate(a)) => a.candidate_name
            == b.candidate_name && a.candidate_votes >= b.candidate_votes,
        (RecordView::Voter(b), RecordView::Voter(a)) => b.has_voted ==> a.has_voted,
        _ => false,
    }
}

/// Whether every record of `before` is still there in `after`, and is what it
/// may have become.
pub open spec fn keeps_history(
    before: Map<Seq<u8>, RecordView>,
    after: Map<Seq<u8>, RecordView>,
) -> bool {
    forall|at: Seq<u8>| #[trigger]
        before.contains_key(at) ==> after.contains_key(at) && follows(before[at], after[at])
}

/// No instruction removes a record, rewrites a poll, renames a candidate,
/// takes a vote back or lets a voter vote again: whatever the addresses and
/// the arguments, and whether it succeeds or fails, each keeps the history
/// of the records.
pub proof fn instructions_keep_history(
    before: Map<Seq<u8>, RecordView>,
    poll_at: Seq<u8>,
    candidate_at: Seq<u8>,
    voter_at: Seq<u8>,
    caller: Seq<u8>,
    shown: Seq<Seq<u8>>,
    poll_id: u64,
    window: (u64, u64),
    name: Seq<char>,
    description: Seq<char>,
    now: int,
)
    ensures
        keeps_history(
            before,
            initialize_poll_step(before, poll_at, caller, poll_id, description, window.0, window.1).1,
        ),
        keeps_history(
            before,
            initialize_candidate_step(before, poll_at, candidate_at, caller, shown, name).1,
        ),
        keeps_history(before, register_voter_step(before, voter_at, poll_at).1),
        keeps_history(before, vote_step(before, poll_at, candidate_at, voter_at, now).1),
{
}

} // verus!
