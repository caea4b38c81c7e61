//! What holds of the instructions of the basic program, whatever the
//! records and the arguments.

use crate::address::{candidate_address, poll_address, voter_address};
use crate::basic::instructions::{
    initialize_candidate_outcome, initialize_candidate_step, initialize_poll_outcome,
    initialize_poll_step, register_voter_outcome, register_voter_step, vote_outcome, vote_step,
};
use crate::basic::ledger::{holds_candidate, holds_poll, holds_voter};
use crate::basic::records::{
    candidate_space, fresh_candidate, fresh_poll, poll_space, window, with_one_more_option,
    with_one_more_vote, ErrorCode, RecordView, VoterAccount, CANDIDATE_SPACE, POLL_SPACE,
};
use crate::error::Failure;
use crate::layout::{byte_len, MAX_DESCRIPTION_LEN, MAX_NAME_LEN};
use vstd::prelude::*;

verus! {

/// Opening a poll a second time changes nothing, whatever the second call
/// asks for, and succeeds where its texts fit.
pub proof fn second_opening_changes_nothing(
    before: Map<Seq<u8>, RecordView>,
    program_id: Seq<u8>,
    poll_id: u64,
    first: (u64, u64, Seq<char>, Seq<char>),
    second: (u64, u64, Seq<char>, Seq<char>),
)
    requires
        initialize_poll_outcome(before, program_id, poll_id, first.0, first.1, first.2, first.3).0
            is Ok,
    ensures
        ({
            let opened = initialize_poll_outcome(
                before,
                program_id,
                poll_id,
                first.0,
                first.1,
                first.2,
                first.3,
            ).1;
            let again = initialize_poll_outcome(
                opened,
                program_id,
                poll_id,
                second.0,
                second.1,
                second.2,
                second.3,
            );
            &&& again.1 == opened
            &&& byte_len(second.2) <= MAX_NAME_LEN && byte_len(second.3) <= MAX_DESCRIPTION_LEN
                ==> again.0 == Ok::<(), Failure<ErrorCode>>(())
        }),
{
}

/// Of two calls that add a candidate of one name to one poll, the second
/// fails because the address is taken, and changes nothing: once the first
/// has succeeded, exactly one candidate has been created.
pub proof fn same_candidate_is_created_once(
    before: Map<Seq<u8>, RecordView>,
    program_id: Seq<u8>,
    poll_id: u64,
    name: Seq<char>,
)
    requires
        initialize_candidate_outcome(before, program_id, poll_id, name).0 is Ok,
    ensures
        ({
            let created = initialize_candidate_outcome(before, program_id, poll_id, name).1;
            initialize_candidate_outcome(created, program_id, poll_id, name) == (
                Err::<(), Failure<ErrorCode>>(Failure::AlreadyExists),
                created,
            )
        }),
{
}

/// A vote that succeeds adds exactly one vote to its candidate and marks the
/// voter. A second vote by the same voter in the same poll, for any candidate
/// that is there and at any time at which voting is open, fails because the
/// voter has voted, and changes nothing.
pub proof fn one_vote_for_each_voter(
    before: Map<Seq<u8>, RecordView>,
    program_id: Seq<u8>,
    voter: Seq<u8>,
    poll_id: u64,
    candidate: Seq<char>,
    now: int,
    other: Seq<char>,
    later: int,
)
    requires
        vote_outcome(before, program_id, voter, poll_id, candidate, now).0 is Ok,
        candidate_address(program_id, poll_id, other) is Some,
        holds_candidate(before, candidate_address(program_id, poll_id, other)->Some_0),
        ({
            let poll = before[poll_address(program_id, poll_id)->Some_0]->Poll_0;
            !window().before_start(poll.poll_voting_start as int, later) && !window().after_end(
                poll.poll_voting_end as int,
                later,
            )
        }),
    ensures
        ({
            let voted = vote_outcome(before, program_id, voter, poll_id, candidate, now).1;
            let at = candidate_address(program_id, poll_id, candidate)->Some_0;
            let registration = voter_address(program_id, poll_id, voter)->Some_0;
            &&& holds_candidate(voted, at)
            &&& voted[at]->Candidate_0.candidate_votes == before[at]->Candidate_0.candidate_votes
                + 1
            &&& voted[registration] == RecordView::Voter(VoterAccount { has_voted: true })
            &&& vote_outcome(voted, program_id, voter, poll_id, other, later) == (
                Err::<(), Failure<ErrorCode>>(Failure::Program(ErrorCode::AlreadyVoted)),
                voted,
            )
        }),
{
}

/// At the very start of a poll a vote is refused as too early. At the very
/// end of a poll whose start lies before its end, the vote of a voter who
/// has not voted is accepted.
pub proof fn window_is_open_after_start_through_end(
    before: Map<Seq<u8>, RecordView>,
    program_id: Seq<u8>,
    voter: Seq<u8>,
    poll_id: u64,
    candidate: Seq<char>,
)
    requires
        poll_address(program_id, poll_id) is Some,
        candidate_address(program_id, poll_id, candidate) is Some,
        voter_address(program_id, poll_id, voter) is Some,
        holds_poll(before, poll_address(program_id, poll_id)->Some_0),
        holds_candidate(before, candidate_address(program_id, poll_id, candidate)->Some_0),
        holds_voter(before, voter_address(program_id, poll_id, voter)->Some_0),
    ensures
        ({
            let poll = before[poll_address(program_id, poll_id)->Some_0]->Poll_0;
            let registration = before[voter_address(program_id, poll_id, voter)->Some_0]->Voter_0;
            &&& vote_outcome(
                before,
                program_id,
                voter,
                poll_id,
                candidate,
                poll.poll_voting_start as int,
            ) == (
                Err::<(), Failure<ErrorCode>>(Failure::Program(ErrorCode::VotingNotStarted)),
                before,
            )
            &&& poll.poll_voting_start < poll.poll_voting_end && !registration.has_voted
                ==> vote_outcome(
                before,
                program_id,
                voter,
                poll_id,
                candidate,
                poll.poll_voting_end as int,
            ).0 == Ok::<(), Failure<ErrorCode>>(())
        }),
{
}

/// Registering a voter who is registered changes nothing: a voter who has
/// voted is not turned back into one who has not.
pub proof fn registering_again_keeps_the_flag(
    before: Map<Seq<u8>, RecordView>,
    program_id: Seq<u8>,
    poll_id: u64,
    voter: Seq<u8>,
)
    requires
        voter_address(program_id, poll_id, voter) is Some,
        holds_voter(before, voter_address(program_id, poll_id, voter)->Some_0),
    ensures
        register_voter_outcome(before, program_id, poll_id, voter) == (
            Ok::<(), Failure<ErrorCode>>(()),
            before,
        ),
{
}

/// After a registration that succeeds, a second one for the same voter and
/// poll succeeds too and changes nothing.
pub proof fn second_registration_changes_nothing(
    before: Map<Seq<u8>, RecordView>,
    program_id: Seq<u8>,
    poll_id: u64,
    voter: Seq<u8>,
)
    requires
        register_voter_outcome(before, program_id, poll_id, voter).0 is Ok,
    ensures
        ({
            let registered = register_voter_outcome(before, program_id, poll_id, voter).1;
            register_voter_outcome(registered, program_id, poll_id, voter) == (
                Ok::<(), Failure<ErrorCode>>(()),
                registered,
            )
        }),
{
}

/// A record that `initialize_poll` or `initialize_candidate` creates fits
/// the space set aside for it, and goes on fitting: votes and counts change
/// no text.
pub proof fn created_records_fit(
    start_time: u64,
    end_time: u64,
    name: Seq<char>,
    description: Seq<char>,
)
    requires
        byte_len(name) <= MAX_NAME_LEN,
        byte_len(description) <= MAX_DESCRIPTION_LEN,
    ensures
        poll_space(fresh_poll(start_time, end_time, name, description)) <= POLL_SPACE,
        poll_space(with_one_more_option(fresh_poll(start_time, end_time, name, description)))
            <= POLL_SPACE,
        candidate_space(fresh_candidate(name)) <= CANDIDATE_SPACE,
        candidate_space(with_one_more_vote(fresh_candidate(name))) <= CANDIDATE_SPACE,
{
}

/// Whether `after` is what the record `before` may have become. A poll keeps
/// its texts and its window, and its count of candidates does not fall. A
/// candidate keeps its name, and its votes do not fall. A voter who has
/// voted stays so. No record turns into one of another kind.
pub open spec fn follows(before: RecordView, after: RecordView) -> bool {
    match (before, after) {
        (RecordView::Poll(b), RecordView::Poll(a)) => a.poll_name == b.poll_name
            && a.poll_description == b.poll_description && a.poll_voting_start
            == b.poll_voting_start && a.poll_voting_end == b.poll_voting_end && a.poll_option_index
            >= b.poll_option_index,
        (RecordView::Candidate(b), RecordView::Candidate(a)) => a.candidate_name
            == b.candidate_name && a.candidate_votes >= b.candidate_votes,
        (RecordView::Voter(b), RecordView::Voter(a)) => b.has_voted ==> a.has_voted,
        _ => false,
    }
}

/// Whether every record of `before` is still there in `after`, and is what it
/// may have become.
pub open spec fn keeps_history(
    before: Map<Seq<u8>, RecordView>,
    after: Map<Seq<u8>, RecordView>,
) -> bool {
    forall|at: Seq<u8>| #[trigger]
        before.contains_key(at) ==> after.contains_key(at) && follows(before[at], after[at])
}

/// No instruction removes a record, rewrites a poll, renames a candidate,
/// takes a vote back or lets a voter vote again: whatever the addresses and
/// the arguments, and whether it succeeds or fails, each keeps the history
/// of the records.
pub proof fn instructions_keep_history(
    before: Map<Seq<u8>, RecordView>,
    poll_at: Seq<u8>,
    candidate_at: Seq<u8>,
    voter_at: Seq<u8>,
    window: (u64, u64),
    name: Seq<char>,
    description: Seq<char>,
    now: int,
)
    ensures
        keeps_history(
            before,
            initialize_poll_step(before, poll_at, window.0, window.1, name, description).1,
        ),
        keeps_history(before, initialize_candidate_step(before, poll_at, candidate_at, name).1),
        keeps_history(before, register_voter_step(before, voter_at).1),
        keeps_history(before, vote_step(before, poll_at, candidate_at, voter_at, now).1),
{
}

} // verus!
