//! The accounts of each instruction of the extended program: the addresses
//! of the records that it reads or writes.

use crate::address::{
    candidate_address, locate_candidate, locate_poll, locate_voter, poll_address, voter_address,
    Address,
};
use vstd::prelude::*;

verus! {

/// The accounts of `initialize_poll`.
#[derive(Clone, Copy, Debug, PartialEq, Eq)]
pub struct InitializePoll {
    pub signer: Address,
    pub poll: Address,
}

/// The accounts of `initialize_candidate`.
#[derive(Clone, Copy, Debug, PartialEq, Eq)]
pub struct InitializeCandidate {
    pub signer: Address,
    pub poll: Address,
    pub candidate: Address,
}

/// The accounts of `register_voter`.
#[derive(Clone, Copy, Debug, PartialEq, Eq)]
pub struct RegisterVoter {
    pub signer: Address,
    pub voter: Address,
    pub poll: Address,
}

/// The accounts of `vote`.
#[derive(Clone, Copy, Debug, PartialEq, Eq)]
pub struct Vote {
    pub signer: Address,
    pub poll: Address,
    pub candidate: Address,
    pub voter: Address,
}

/// The accounts of `get_winner`.
#[derive(Clone, Copy, Debug, PartialEq, Eq)]
pub struct GetWinner {
    pub poll: Address,
}

impl InitializePoll {
    /// Finds the accounts for opening the poll `poll_id`.
    pub fn resolve(program_id: &Address, signer: &Address, poll_id: u64) -> (r: Option<Self>)
        ensures
            match r {
                Some(a) => a.signer == *signer && poll_address(program_id@, poll_id) == Some(
                    a.poll@,
                ),
                None => poll_address(program_id@, poll_id) is None,
            },
    {
        match locate_poll(program_id, poll_id) {
            Some(poll) => Some(InitializePoll { signer: *signer, poll }),
            None => None,
        }
    }
}

impl InitializeCandidate {
    /// Finds the accounts for adding the candidate `candidate_name` to the
    /// poll `poll_id`.
    pub fn resolve(program_id: &Address, signer: &Address, candidate_name: &str, poll_id: u64) -> (r:
        Option<Self>)
        ensures
            match r {
                Some(a) => a.signer == *signer && poll_address(program_id@, poll_id) == Some(
                    a.poll@,
                ) && candidate_address(program_id@, poll_id, candidate_name@) == Some(
                    a.candidate@,
                ),
                None => poll_address(program_id@, poll_id) is None || candidate_address(
                    program_id@,
                    poll_id,
                    candidate_name@,
                ) is None,
            },
    {
        let poll = match locate_poll(program_id, poll_id) {
            Some(a) => a,
            None => return None,
        };
        let candidate = match locate_candidate(program_id, poll_id, candidate_name) {
            Some(a) => a,
            None => return None,
        };
        Some(InitializeCandidate { signer: *signer, poll, candidate })
    }
}

impl RegisterVoter {
    /// Finds the accounts for registering `signer` with the poll `poll_id`.
    pub fn resolve(program_id: &Address, signer: &Address, poll_id: u64) -> (r: Option<Self>)
        ensures
            match r {
                Some(a) => a.signer == *signer && voter_address(program_id@, poll_id, signer@)
                    == Some(a.voter@) && poll_address(program_id@, poll_id) == Some(a.poll@),
                None => voter_address(program_id@, poll_id, signer@) is None || poll_address(
                    program_id@,
                    poll_id,
                ) is None,
            },
    {
        let voter = match locate_voter(program_id, poll_id, signer) {
            Some(a) => a,
            None => return None,
        };
        let poll = match locate_poll(program_id, poll_id) {
            Some(a) => a,
            None => return None,
        };
        Some(RegisterVoter { signer: *signer, voter, poll })
    }
}

impl Vote {
    /// Finds the accounts for a vote by `signer` for `candidate_name` in the
    /// poll `poll_id`.
    pub fn resolve(program_id: &Address, signer: &Address, candidate_name: &str, poll_id: u64) -> (r:
        Option<Self>)
        ensures
            match r {
                Some(a) => a.signer == *signer && poll_address(program_id@, poll_id) == Some(
                    a.poll@,
                ) && candidate_address(program_id@, poll_id, candidate_name@) == Some(
                    a.candidate@,
                ) && voter_address(program_id@, poll_id, signer@) == Some(a.voter@),
                None => poll_address(program_id@, poll_id) is None || candidate_address(
                    program_id@,
                    poll_id,
                    candidate_name@,
                ) is None || voter_address(program_id@, poll_id, signer@) is None,
            },
    {
        let poll = match locate_poll(program_id, poll_id) {
            Some(a) => a,
            None => return None,
        };
        let candidate = match locate_candidate(program_id, poll_id, candidate_name) {
            Some(a) => a,
            None => return None,
        };
        let voter = match locate_voter(program_id, poll_id, signer) {
            Some(a) => a,
            None => return None,
        };
        Some(Vote { signer: *signer, poll, candidate, voter })
    }
}

impl GetWinner {
    /// Finds the account of the poll `poll_id`.
    pub fn resolve(program_id: &Address, poll_id: u64) -> (r: Option<Self>)
        ensures
            match r {
                Some(a) => poll_address(program_id@, poll_id) == Some(a.poll@),
                None => poll_address(program_id@, poll_id) is None,
            },
    {
        match locate_poll(program_id, poll_id) {
            Some(poll) => Some(GetWinner { poll }),
            None => None,
        }
    }
}

} // verus!
