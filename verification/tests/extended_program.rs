use voting::address::Address;
use voting::error::Failure;
use voting::extended::{
    admit_candidate, cast, declare_winner, enroll, get_winner, initialize_candidate,
    initialize_poll, register_voter, try_initialize_candidate, try_register_voter, try_vote,
    vet_candidate, vote, vote_at, window_policy, Candidate, CustomError, GetWinner,
    InitializeCandidate, InitializePoll, Ledger, Poll, Record, RegisterVoter, Turnout, Vote,
    Voter, Winner, CANDIDATE_SPACE, POLL_SPACE, VOTER_SPACE,
};

fn program() -> Address {
    Address::new([7u8; 32])
}

fn admin() -> Address {
    Address::new([1u8; 32])
}

fn bob() -> Address {
    Address::new([2u8; 32])
}

fn carol() -> Address {
    Address::new([3u8; 32])
}

fn s(text: &str) -> String {
    text.to_string()
}

fn candidate_at(poll_id: u64, name: &str) -> Address {
    InitializeCandidate::resolve(&program(), &admin(), name, poll_id).unwrap().candidate
}

/// A ledger with poll 1 from 100 to 200, administered by `admin`, and the
/// candidates A and B.
fn ledger_with_poll() -> Ledger {
    let mut ledger = Ledger::new(program());
    assert_eq!(initialize_poll(&mut ledger, &admin(), 1, s("Cats or dogs?"), 100, 200), Ok(()));
    assert_eq!(initialize_candidate(&mut ledger, &admin(), &vec![], s("A"), 1), Ok(()));
    assert_eq!(
        initialize_candidate(&mut ledger, &admin(), &vec![candidate_at(1, "A")], s("B"), 1),
        Ok(())
    );
    ledger
}

fn poll_of(ledger: &Ledger, poll_id: u64) -> Poll {
    let accounts = GetWinner::resolve(&ledger.program_id(), poll_id).unwrap();
    ledger.poll(&accounts.poll).unwrap().clone()
}

fn voter_of(ledger: &Ledger, who: &Address, poll_id: u64) -> Option<Voter> {
    let accounts = RegisterVoter::resolve(&ledger.program_id(), who, poll_id).unwrap();
    ledger.voter(&accounts.voter)
}

fn votes_of(ledger: &Ledger, poll_id: u64, name: &str) -> u64 {
    ledger.candidate(&candidate_at(poll_id, name)).unwrap().candidate_votes
}

fn percentage(turnout: &Turnout) -> f64 {
    if turnout.voters > 0 {
        (turnout.votes as f64 / turnout.voters as f64) * 100.0
    } else {
        0.0
    }
}

#[test]
fn initialize_poll_records_the_administrator() {
    let mut ledger = Ledger::new(program());
    assert_eq!(initialize_poll(&mut ledger, &admin(), 1, s("Cats or dogs?"), 100, 200), Ok(()));
    assert_eq!(
        poll_of(&ledger, 1),
        Poll {
            poll_id: 1,
            description: s("Cats or dogs?"),
            poll_start: 100,
            poll_end: 200,
            candidate_amount: 0,
            voter_count: 0,
            admin: admin(),
        }
    );
}

#[test]
fn a_poll_cannot_be_opened_twice() {
    let mut ledger = Ledger::new(program());
    assert_eq!(initialize_poll(&mut ledger, &admin(), 1, s("Cats or dogs?"), 100, 200), Ok(()));
    let first = poll_of(&ledger, 1);
    assert_eq!(
        initialize_poll(&mut ledger, &bob(), 1, s("Changed"), 5, 6),
        Err(Failure::AlreadyExists)
    );
    assert_eq!(
        initialize_poll(&mut ledger, &admin(), 1, s("Cats or dogs?"), 100, 200),
        Err(Failure::AlreadyExists)
    );
    assert_eq!(poll_of(&ledger, 1), first);
}

#[test]
fn a_description_of_281_bytes_is_refused() {
    let mut ledger = Ledger::new(program());
    assert_eq!(
        initialize_poll(&mut ledger, &admin(), 1, "d".repeat(281), 100, 200),
        Err(Failure::InvalidInput)
    );
    assert_eq!(initialize_poll(&mut ledger, &admin(), 1, "d".repeat(280), 100, 200), Ok(()));
}

#[test]
fn a_window_that_ends_before_it_starts_is_accepted() {
    let mut ledger = Ledger::new(program());
    assert_eq!(initialize_poll(&mut ledger, &admin(), 1, s(""), 200, 100), Ok(()));
    assert_eq!(poll_of(&ledger, 1).poll_start, 200);
}

#[test]
fn the_administrator_adds_candidates() {
    let ledger = ledger_with_poll();
    assert_eq!(poll_of(&ledger, 1).candidate_amount, 2);
    assert_eq!(
        ledger.record(&candidate_at(1, "B")),
        Some(&Record::Candidate(Candidate { candidate_name: s("B"), candidate_votes: 0 }))
    );
}

#[test]
fn nobody_else_adds_candidates() {
    let mut ledger = ledger_with_poll();
    assert_eq!(
        initialize_candidate(&mut ledger, &bob(), &vec![], s("C"), 1),
        Err(Failure::Program(CustomError::NotAdmin))
    );
    assert_eq!(poll_of(&ledger, 1).candidate_amount, 2);
    assert!(ledger.record(&candidate_at(1, "C")).is_none());
}

#[test]
fn extended_the_same_candidate_cannot_be_added_twice() {
    let mut ledger = ledger_with_poll();
    assert_eq!(
        initialize_candidate(&mut ledger, &admin(), &vec![], s("A"), 1),
        Err(Failure::AlreadyExists)
    );
    assert_eq!(
        initialize_candidate(&mut ledger, &bob(), &vec![candidate_at(1, "A")], s("A"), 1),
        Err(Failure::AlreadyExists)
    );
    assert_eq!(poll_of(&ledger, 1).candidate_amount, 2);
}

#[test]
fn a_shown_candidate_of_the_same_name_is_a_duplicate() {
    let mut ledger = ledger_with_poll();
    assert_eq!(initialize_poll(&mut ledger, &admin(), 2, s("Second"), 100, 200), Ok(()));
    assert_eq!(
        initialize_candidate(
            &mut ledger,
            &admin(),
            &vec![candidate_at(1, "B"), candidate_at(1, "A")],
            s("A"),
            2
        ),
        Err(Failure::Program(CustomError::DuplicateCandidate))
    );
    assert_eq!(poll_of(&ledger, 2).candidate_amount, 0);
    // What is not shown is not checked.
    assert_eq!(
        initialize_candidate(&mut ledger, &admin(), &vec![candidate_at(1, "B")], s("A"), 2),
        Ok(())
    );
    assert_eq!(poll_of(&ledger, 2).candidate_amount, 1);
}

#[test]
fn the_first_faulty_shown_account_decides() {
    let mut ledger = ledger_with_poll();
    assert_eq!(initialize_poll(&mut ledger, &admin(), 2, s("Second"), 100, 200), Ok(()));
    let missing = candidate_at(1, "nobody");
    assert_eq!(
        initialize_candidate(
            &mut ledger,
            &admin(),
            &vec![missing, candidate_at(1, "A")],
            s("A"),
            2
        ),
        Err(Failure::NotFound)
    );
    assert_eq!(
        initialize_candidate(
            &mut ledger,
            &admin(),
            &vec![candidate_at(1, "A"), missing],
            s("A"),
            2
        ),
        Err(Failure::Program(CustomError::DuplicateCandidate))
    );
}

#[test]
fn the_administrator_is_checked_before_the_shown_accounts() {
    let mut ledger = ledger_with_poll();
    assert_eq!(
        initialize_candidate(&mut ledger, &bob(), &vec![candidate_at(1, "nobody")], s("C"), 1),
        Err(Failure::Program(CustomError::NotAdmin))
    );
}

#[test]
fn extended_a_candidate_needs_its_poll() {
    let mut ledger = Ledger::new(program());
    assert_eq!(
        initialize_candidate(&mut ledger, &admin(), &vec![], s("A"), 1),
        Err(Failure::NotFound)
    );
}

#[test]
fn extended_a_candidate_name_of_33_bytes_is_refused() {
    let mut ledger = ledger_with_poll();
    assert_eq!(
        initialize_candidate(&mut ledger, &admin(), &vec![], "c".repeat(33), 1),
        Err(Failure::InvalidInput)
    );
    assert_eq!(initialize_candidate(&mut ledger, &admin(), &vec![], "c".repeat(32), 1), Ok(()));
}

#[test]
fn register_voter_counts_the_voter() {
    let mut ledger = ledger_with_poll();
    assert_eq!(register_voter(&mut ledger, &bob(), 1), Ok(()));
    assert_eq!(voter_of(&ledger, &bob(), 1), Some(Voter { has_voted: false }));
    assert_eq!(poll_of(&ledger, 1).voter_count, 1);
    assert_eq!(register_voter(&mut ledger, &carol(), 1), Ok(()));
    assert_eq!(poll_of(&ledger, 1).voter_count, 2);
    assert_eq!(poll_of(&ledger, 1).candidate_amount, 2);
}

#[test]
fn register_voter_needs_the_poll() {
    let mut ledger = Ledger::new(program());
    assert_eq!(register_voter(&mut ledger, &bob(), 1), Err(Failure::NotFound));
    assert_eq!(voter_of(&ledger, &bob(), 1), None);
}

#[test]
fn registering_twice_counts_once() {
    let mut ledger = ledger_with_poll();
    assert_eq!(register_voter(&mut ledger, &bob(), 1), Ok(()));
    assert_eq!(register_voter(&mut ledger, &bob(), 1), Ok(()));
    assert_eq!(poll_of(&ledger, 1).voter_count, 1);
    assert_eq!(voter_of(&ledger, &bob(), 1), Some(Voter { has_voted: false }));
}

#[test]
fn extended_registering_again_after_voting_keeps_the_flag() {
    let mut ledger = ledger_with_poll();
    assert_eq!(register_voter(&mut ledger, &bob(), 1), Ok(()));
    assert_eq!(vote_at(&mut ledger, &bob(), s("A"), 1, 150), Ok(()));
    assert_eq!(register_voter(&mut ledger, &bob(), 1), Ok(()));
    assert_eq!(voter_of(&ledger, &bob(), 1), Some(Voter { has_voted: true }));
    assert_eq!(poll_of(&ledger, 1).voter_count, 1);
}

#[test]
fn vote_twice_then_name_the_winner() {
    let mut ledger = ledger_with_poll();
    assert_eq!(register_voter(&mut ledger, &bob(), 1), Ok(()));
    assert_eq!(vote_at(&mut ledger, &bob(), s("A"), 1, 150), Ok(()));
    assert_eq!(votes_of(&ledger, 1, "A"), 1);
    assert_eq!(
        vote_at(&mut ledger, &bob(), s("B"), 1, 160),
        Err(Failure::Program(CustomError::AlreadyVoted))
    );
    assert_eq!(votes_of(&ledger, 1, "A"), 1);
    assert_eq!(votes_of(&ledger, 1, "B"), 0);
    let winner =
        get_winner(&ledger, &vec![candidate_at(1, "A"), candidate_at(1, "B")], 1).unwrap();
    assert_eq!(
        winner,
        Winner { name: s("A"), votes: 1, turnout: Turnout { votes: 1, voters: 1 } }
    );
    assert_eq!(winner.turnout.percent(), 100);
    assert_eq!(percentage(&winner.turnout), 100.0);
}

#[test]
fn turnout_sets_the_winning_votes_against_all_voters() {
    let mut ledger = ledger_with_poll();
    for who in [bob(), carol(), admin()] {
        assert_eq!(register_voter(&mut ledger, &who, 1), Ok(()));
    }
    assert_eq!(vote_at(&mut ledger, &bob(), s("B"), 1, 150), Ok(()));
    let winner =
        get_winner(&ledger, &vec![candidate_at(1, "A"), candidate_at(1, "B")], 1).unwrap();
    assert_eq!(winner.name, "B");
    assert_eq!(winner.votes, 1);
    assert_eq!(winner.turnout, Turnout { votes: 1, voters: 3 });
    assert_eq!(winner.turnout.percent(), 33);
    assert!((percentage(&winner.turnout) - 100.0 / 3.0).abs() < 1e-9);
}

#[test]
fn without_voters_the_turnout_is_zero() {
    let ledger = ledger_with_poll();
    let winner =
        get_winner(&ledger, &vec![candidate_at(1, "A"), candidate_at(1, "B")], 1).unwrap();
    assert_eq!(winner, Winner { name: s("A"), votes: 0, turnout: Turnout { votes: 0, voters: 0 } });
    assert_eq!(winner.turnout.percent(), 0);
    assert_eq!(percentage(&winner.turnout), 0.0);
    assert_eq!(Turnout { votes: 5, voters: 0 }.percent(), 0);
    assert_eq!(percentage(&Turnout { votes: 5, voters: 0 }), 0.0);
}

#[test]
fn percent_rounds_down() {
    assert_eq!(Turnout { votes: 2, voters: 3 }.percent(), 66);
    assert_eq!(Turnout { votes: 1, voters: 200 }.percent(), 0);
    assert_eq!(Turnout { votes: 3, voters: 3 }.percent(), 100);
    assert_eq!(Turnout { votes: 3, voters: 2 }.percent(), 150);
    assert_eq!(Turnout { votes: u64::MAX, voters: 1 }.percent(), u64::MAX as u128 * 100);
}

#[test]
fn the_first_of_the_leading_candidates_wins() {
    let poll = Poll::open(1, s(""), 100, 200, admin()).unwrap();
    let c = |name: &str, votes: u64| Candidate { candidate_name: s(name), candidate_votes: votes };
    let winner = declare_winner(&poll, &vec![c("A", 2), c("B", 5), c("C", 5), c("D", 1)]);
    assert_eq!(winner.name, "B");
    assert_eq!(winner.votes, 5);
    let winner = declare_winner(&poll, &vec![c("C", 5), c("B", 5)]);
    assert_eq!(winner.name, "C");
    let winner = declare_winner(&poll, &vec![c("A", 0), c("B", 0)]);
    assert_eq!(winner, Winner { name: s("A"), votes: 0, turnout: Turnout { votes: 0, voters: 0 } });
    let winner = declare_winner(&poll, &vec![c("B", 0), c("A", 0)]);
    assert_eq!(winner.name, "B");
    let winner = declare_winner(&poll, &vec![c("A", 0), c("B", 1), c("C", 1)]);
    assert_eq!(winner.name, "B");
    assert_eq!(winner.votes, 1);
    let winner = declare_winner(&poll, &vec![c("A", 7)]);
    assert_eq!(winner.name, "A");
    assert_eq!(winner.votes, 7);
    let winner = declare_winner(&poll, &vec![]);
    assert_eq!(winner.name, "");
    assert_eq!(winner.votes, 0);
}

#[test]
fn the_order_of_the_shown_candidates_breaks_ties() {
    let mut ledger = ledger_with_poll();
    for who in [bob(), carol()] {
        assert_eq!(register_voter(&mut ledger, &who, 1), Ok(()));
    }
    assert_eq!(vote_at(&mut ledger, &bob(), s("A"), 1, 150), Ok(()));
    assert_eq!(vote_at(&mut ledger, &carol(), s("B"), 1, 150), Ok(()));
    let ab = get_winner(&ledger, &vec![candidate_at(1, "A"), candidate_at(1, "B")], 1).unwrap();
    let ba = get_winner(&ledger, &vec![candidate_at(1, "B"), candidate_at(1, "A")], 1).unwrap();
    assert_eq!(ab.name, "A");
    assert_eq!(ba.name, "B");
    assert_eq!(ab.turnout, Turnout { votes: 1, voters: 2 });
    assert_eq!(ab.turnout.percent(), 50);
}

#[test]
fn get_winner_needs_the_poll_and_every_shown_candidate() {
    let ledger = ledger_with_poll();
    assert_eq!(get_winner(&ledger, &vec![], 2), Err(Failure::NotFound));
    assert_eq!(
        get_winner(&ledger, &vec![candidate_at(1, "A"), candidate_at(1, "nobody")], 1),
        Err(Failure::NotFound)
    );
    let poll = GetWinner::resolve(&program(), 1).unwrap().poll;
    assert_eq!(get_winner(&ledger, &vec![poll], 1), Err(Failure::NotFound));
    assert_eq!(
        get_winner(&ledger, &vec![], 1),
        Ok(Winner { name: s(""), votes: 0, turnout: Turnout { votes: 0, voters: 0 } })
    );
}

#[test]
fn voting_is_open_at_the_start_and_at_the_end() {
    let mut ledger = ledger_with_poll();
    for who in [bob(), carol(), admin()] {
        assert_eq!(register_voter(&mut ledger, &who, 1), Ok(()));
    }
    assert_eq!(
        vote_at(&mut ledger, &bob(), s("A"), 1, 99),
        Err(Failure::Program(CustomError::PollNotStarted))
    );
    assert_eq!(vote_at(&mut ledger, &bob(), s("A"), 1, 100), Ok(()));
    assert_eq!(vote_at(&mut ledger, &carol(), s("A"), 1, 200), Ok(()));
    assert_eq!(
        vote_at(&mut ledger, &admin(), s("A"), 1, 201),
        Err(Failure::Program(CustomError::PollEnded))
    );
    assert_eq!(votes_of(&ledger, 1, "A"), 2);
    assert_eq!(voter_of(&ledger, &admin(), 1), Some(Voter { has_voted: false }));
}

#[test]
fn extended_vote_needs_poll_candidate_and_voter() {
    let mut ledger = ledger_with_poll();
    assert_eq!(vote_at(&mut ledger, &bob(), s("A"), 1, 150), Err(Failure::NotFound));
    assert_eq!(register_voter(&mut ledger, &bob(), 1), Ok(()));
    assert_eq!(vote_at(&mut ledger, &bob(), s("C"), 1, 150), Err(Failure::NotFound));
    assert_eq!(vote_at(&mut ledger, &bob(), s("A"), 2, 150), Err(Failure::NotFound));
    assert_eq!(
        vote_at(&mut ledger, &bob(), "c".repeat(33), 1, 150),
        Err(Failure::InvalidInput)
    );
}

#[test]
fn extended_vote_without_a_clock_changes_nothing() {
    let mut ledger = ledger_with_poll();
    assert_eq!(register_voter(&mut ledger, &bob(), 1), Ok(()));
    assert_eq!(vote(&mut ledger, &bob(), s("A"), 1), Err(Failure::ClockUnavailable));
    assert_eq!(votes_of(&ledger, 1, "A"), 0);
    assert_eq!(voter_of(&ledger, &bob(), 1), Some(Voter { has_voted: false }));
}

#[test]
fn show_reads_candidates_and_nothing_else() {
    let ledger = ledger_with_poll();
    let poll = GetWinner::resolve(&program(), 1).unwrap().poll;
    assert_eq!(
        ledger.show(&vec![candidate_at(1, "B"), poll, candidate_at(1, "nobody")]),
        vec![Some(Candidate { candidate_name: s("B"), candidate_votes: 0 }), None, None]
    );
    assert_eq!(ledger.candidates(&vec![candidate_at(1, "B"), poll]), None);
    assert_eq!(
        ledger.candidates(&vec![candidate_at(1, "B"), candidate_at(1, "A")]),
        Some(vec![
            Candidate { candidate_name: s("B"), candidate_votes: 0 },
            Candidate { candidate_name: s("A"), candidate_votes: 0 },
        ])
    );
}

#[test]
fn admit_candidate_checks_the_caller_then_the_shown_candidates() {
    let poll = Poll::open(1, s(""), 100, 200, admin()).unwrap();
    let a = Some(Candidate { candidate_name: s("A"), candidate_votes: 3 });
    let b = Some(Candidate { candidate_name: s("B"), candidate_votes: 0 });
    assert_eq!(
        admit_candidate(&poll, &bob(), &vec![a.clone()], &s("A")),
        Err(Failure::Program(CustomError::NotAdmin))
    );
    assert_eq!(
        admit_candidate(&poll, &admin(), &vec![b.clone(), a.clone()], &s("A")),
        Err(Failure::Program(CustomError::DuplicateCandidate))
    );
    assert_eq!(
        admit_candidate(&poll, &admin(), &vec![b.clone(), None, a.clone()], &s("A")),
        Err(Failure::NotFound)
    );
    let counted = admit_candidate(&poll, &admin(), &vec![b, a], &s("C")).unwrap();
    assert_eq!(counted.candidate_amount, 1);
    assert_eq!(counted.with_voter_counted().voter_count, 1);
    assert_eq!(counted.admin, admin());
}

#[test]
fn extended_cast_counts_an_accepted_vote() {
    let poll = Poll::open(1, s(""), 100, 200, admin()).unwrap();
    let candidate = Candidate::named(s("A")).unwrap();
    let fresh = Voter { has_voted: false };
    let used = Voter { has_voted: true };
    assert_eq!(
        cast(&poll, &candidate, &fresh, 100),
        Ok((Candidate { candidate_name: s("A"), candidate_votes: 1 }, used))
    );
    assert_eq!(cast(&poll, &candidate, &used, 100), Err(CustomError::AlreadyVoted));
    assert_eq!(cast(&poll, &candidate, &used, 99), Err(CustomError::PollNotStarted));
    assert_eq!(cast(&poll, &candidate, &fresh, 201), Err(CustomError::PollEnded));
    assert_eq!(Candidate::named("c".repeat(33)), None);
    assert_eq!(Poll::open(1, "d".repeat(281), 100, 200, admin()), None);
}

#[test]
fn extended_accounts_of_one_key_agree() {
    let vote = Vote::resolve(&program(), &bob(), "A", 1).unwrap();
    let poll = InitializePoll::resolve(&program(), &admin(), 1).unwrap();
    let voter = RegisterVoter::resolve(&program(), &bob(), 1).unwrap();
    assert_eq!(poll.signer, admin());
    assert_eq!(vote.poll, poll.poll);
    assert_eq!(vote.poll, voter.poll);
    assert_eq!(vote.voter, voter.voter);
    assert_eq!(vote.candidate, candidate_at(1, "A"));
    assert_eq!(Vote::resolve(&program(), &bob(), &"c".repeat(33), 1), None);
}

#[test]
fn the_window_includes_both_ends() {
    let policy = window_policy();
    assert!(!policy.strict_start);
    assert!(policy.inclusive_end);
}

#[test]
fn extended_record_budgets() {
    assert_eq!(POLL_SPACE, 364);
    assert_eq!(CANDIDATE_SPACE, 52);
    assert_eq!(VOTER_SPACE, 9);
}

#[test]
fn extended_process_works_on_the_addresses_it_is_given() {
    let mut ledger = Ledger::new(program());
    let p = Address::new([10u8; 32]);
    let c = Address::new([11u8; 32]);
    let v = Address::new([12u8; 32]);
    let open = InitializePoll { signer: admin(), poll: p };
    assert_eq!(open.process(&mut ledger, 1, s("Pets"), 100, 200), Ok(()));
    assert_eq!(open.process(&mut ledger, 1, s("Pets"), 100, 200), Err(Failure::AlreadyExists));
    let add = InitializeCandidate { signer: admin(), poll: p, candidate: c };
    assert_eq!(add.process(&mut ledger, &vec![], s("A")), Ok(()));
    let register = RegisterVoter { signer: bob(), voter: v, poll: p };
    assert_eq!(register.process(&mut ledger), Ok(()));
    let vote = Vote { signer: bob(), poll: p, candidate: c, voter: v };
    assert_eq!(vote.process(&mut ledger, 100), Ok(()));
    assert_eq!(
        GetWinner { poll: p }.process(&ledger, &vec![c]),
        Ok(Winner { name: s("A"), votes: 1, turnout: Turnout { votes: 1, voters: 1 } })
    );
    assert!(ledger.occupied(&c));
}

#[test]
fn extended_an_address_holds_one_record() {
    let mut ledger = Ledger::new(program());
    let p = Address::new([10u8; 32]);
    let c = Address::new([11u8; 32]);
    assert_eq!(
        InitializePoll { signer: admin(), poll: p }.process(&mut ledger, 1, s(""), 100, 200),
        Ok(())
    );
    assert_eq!(
        InitializeCandidate { signer: admin(), poll: p, candidate: c }
            .process(&mut ledger, &vec![], s("A")),
        Ok(())
    );
    // A voter where a candidate lives, a voter where no poll is.
    assert_eq!(
        RegisterVoter { signer: bob(), voter: c, poll: p }.process(&mut ledger),
        Err(Failure::AlreadyExists)
    );
    assert_eq!(
        RegisterVoter { signer: bob(), voter: Address::new([12u8; 32]), poll: c }
            .process(&mut ledger),
        Err(Failure::NotFound)
    );
    assert_eq!(poll_of_at(&ledger, &p).voter_count, 0);
    assert_eq!(
        InitializeCandidate { signer: admin(), poll: p, candidate: p }
            .process(&mut ledger, &vec![], s("B")),
        Err(Failure::AlreadyExists)
    );
}

fn poll_of_at(ledger: &Ledger, at: &Address) -> Poll {
    ledger.poll(at).unwrap().clone()
}

#[test]
fn the_first_candidate_wins_where_nobody_has_a_vote() {
    let mut ledger = ledger_with_poll();
    assert_eq!(register_voter(&mut ledger, &bob(), 1), Ok(()));
    let ab = get_winner(&ledger, &vec![candidate_at(1, "A"), candidate_at(1, "B")], 1).unwrap();
    assert_eq!(ab, Winner { name: s("A"), votes: 0, turnout: Turnout { votes: 0, voters: 1 } });
    assert_eq!(ab.turnout.percent(), 0);
    assert_eq!(percentage(&ab.turnout), 0.0);
    let ba = get_winner(&ledger, &vec![candidate_at(1, "B"), candidate_at(1, "A")], 1).unwrap();
    assert_eq!(ba.name, "B");
}

#[test]
fn vet_candidate_objects_as_admit_candidate_does() {
    let poll = Poll::open(1, s(""), 100, 200, admin()).unwrap();
    let a = Some(Candidate { candidate_name: s("A"), candidate_votes: 3 });
    let b = Some(Candidate { candidate_name: s("B"), candidate_votes: 0 });
    assert_eq!(
        vet_candidate(&poll, &bob(), &vec![a.clone()], &s("A")),
        Err(Failure::Program(CustomError::NotAdmin))
    );
    assert_eq!(
        vet_candidate(&poll, &admin(), &vec![b.clone(), a.clone()], &s("A")),
        Err(Failure::Program(CustomError::DuplicateCandidate))
    );
    assert_eq!(
        vet_candidate(&poll, &admin(), &vec![None, a.clone()], &s("A")),
        Err(Failure::NotFound)
    );
    assert_eq!(vet_candidate(&poll, &admin(), &vec![b, a], &s("C")), Ok(()));
    assert_eq!(vet_candidate(&poll, &admin(), &vec![], &s("C")), Ok(()));
}

#[test]
fn a_refused_candidate_needs_no_room() {
    let mut poll = Poll::open(1, s(""), 100, 200, admin()).unwrap();
    poll.candidate_amount = u64::MAX;
    let a = Some(Candidate { candidate_name: s("A"), candidate_votes: 3 });
    assert_eq!(
        admit_candidate(&poll, &bob(), &vec![], &s("A")),
        Err(Failure::Program(CustomError::NotAdmin))
    );
    assert_eq!(
        admit_candidate(&poll, &admin(), &vec![a], &s("A")),
        Err(Failure::Program(CustomError::DuplicateCandidate))
    );
}

#[test]
fn enroll_counts_a_new_voter_and_keeps_one_who_is_there() {
    let poll = Poll::open(1, s("Pets"), 100, 200, admin()).unwrap();
    let (voter, counted) = enroll(None, &poll);
    assert_eq!(voter, Voter { has_voted: false });
    assert_eq!(counted, poll.with_voter_counted());
    assert_eq!(counted.voter_count, 1);
    let (voter, kept) = enroll(Some(Voter { has_voted: true }), &counted);
    assert_eq!(voter, Voter { has_voted: true });
    assert_eq!(kept, counted);
    let mut full = poll.clone();
    full.voter_count = u64::MAX;
    let (voter, kept) = enroll(Some(Voter { has_voted: false }), &full);
    assert_eq!(voter, Voter { has_voted: false });
    assert_eq!(kept, full);
}

#[test]
fn try_functions_do_as_the_plain_ones_where_there_is_room() {
    let mut ledger = ledger_with_poll();
    assert_eq!(
        try_initialize_candidate(&mut ledger, &admin(), &vec![], s("C"), 1),
        Some(Ok(()))
    );
    assert_eq!(
        try_initialize_candidate(&mut ledger, &bob(), &vec![], s("D"), 1),
        Some(Err(Failure::Program(CustomError::NotAdmin)))
    );
    assert_eq!(try_register_voter(&mut ledger, &bob(), 1), Some(Ok(())));
    assert_eq!(try_register_voter(&mut ledger, &bob(), 1), Some(Ok(())));
    assert_eq!(try_register_voter(&mut ledger, &bob(), 2), Some(Err(Failure::NotFound)));
    assert_eq!(
        try_vote(&mut ledger, &bob(), s("A"), 1),
        Some(Err(Failure::ClockUnavailable))
    );
    assert_eq!(poll_of(&ledger, 1).candidate_amount, 3);
    assert_eq!(poll_of(&ledger, 1).voter_count, 1);
}

#[test]
fn try_functions_leave_full_counts_alone() {
    let mut ledger = ledger_with_poll();
    assert_eq!(register_voter(&mut ledger, &bob(), 1), Ok(()));
    let at = GetWinner::resolve(&program(), 1).unwrap().poll;
    let mut full = poll_of(&ledger, 1);
    full.candidate_amount = u64::MAX;
    full.voter_count = u64::MAX;
    ledger.put(at, Record::Poll(full.clone()));
    assert_eq!(try_initialize_candidate(&mut ledger, &admin(), &vec![], s("C"), 1), None);
    assert_eq!(try_register_voter(&mut ledger, &carol(), 1), None);
    assert_eq!(try_register_voter(&mut ledger, &bob(), 1), None);
    assert_eq!(poll_of(&ledger, 1), full);
    assert_eq!(voter_of(&ledger, &carol(), 1), None);
    // Calls that raise no count need no room.
    assert_eq!(register_voter(&mut ledger, &bob(), 1), Ok(()));
    assert_eq!(
        initialize_candidate(&mut ledger, &admin(), &vec![], s("A"), 1),
        Err(Failure::AlreadyExists)
    );
    assert_eq!(poll_of(&ledger, 1), full);
    ledger.put(
        candidate_at(1, "A"),
        Record::Candidate(Candidate { candidate_name: s("A"), candidate_votes: u64::MAX }),
    );
    assert_eq!(try_vote(&mut ledger, &bob(), s("A"), 1), None);
    assert_eq!(votes_of(&ledger, 1, "A"), u64::MAX);
    assert_eq!(
        vote_at(&mut ledger, &bob(), s("A"), 1, 99),
        Err(Failure::Program(CustomError::PollNotStarted))
    );
    let winner =
        get_winner(&ledger, &vec![candidate_at(1, "B"), candidate_at(1, "A")], 1).unwrap();
    assert_eq!(winner.name, "A");
    assert_eq!(winner.votes, u64::MAX);
    assert_eq!(winner.turnout, Turnout { votes: u64::MAX, voters: u64::MAX });
    assert_eq!(winner.turnout.percent(), 100);
}
