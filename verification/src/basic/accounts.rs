//! The accounts of each instruction of the basic program: the addresses of
//! the records that it reads or writes.

use crate::address::{
    candidate_address, locate_candidate, locate_poll, locate_voter, poll_address, voter_address,
    Address,
};
use vstd::prelude::*;

verus! {

/// The accounts of `initialize_poll`.
#[derive(Clone, Copy, Debug, PartialEq, Eq)]
pub struct InitializePoll {
    pub signer: Address,
    pub poll_account: Address,
}

/// The accounts of `initialize_candidate`.
#[derive(Clone, Copy, Debug, PartialEq, Eq)]
pub struct InitializeCandidate {
    pub signer: Address,
    pub poll_account: Address,
    pub candidate_account: Address,
}

/// The accounts of `register_voter`.
#[derive(Clone, Copy, Debug, PartialEq, Eq)]
pub struct RegisterVoter {
    pub signer: Address,
    pub voter_account: Address,
}

/// The accounts of `vote`.
#[derive(Clone, Copy, Debug, PartialEq, Eq)]
pub struct Vote {
    pub signer: Address,
    pub poll_account: Address,
    pub candidate_account: Address,
    pub voter_account: Address,
}

/// The accounts of `get_poll_results`.
#[derive(Clone, Copy, Debug, PartialEq, Eq)]
pub struct GetPollResults {
    pub candidate_account: Address,
}

impl InitializePoll {
    /// Finds the accounts for opening the poll `poll_id`.
    pub fn resolve(program_id: &Address, signer: &Address, poll_id: u64) -> (r: Option<Self>)
        ensures
            match r {
                Some(a) => a.signer == *signer && poll_address(program_id@, poll_id) == Some(
                    a.poll_account@,
                ),
                None => poll_address(program_id@, poll_id) is None,
            },
    {
        match locate_poll(program_id, poll_id) {
            Some(poll_account) => Some(InitializePoll { signer: *signer, poll_account }),
            None => None,
        }
    }
}

impl InitializeCandidate {
    /// Finds the accounts for adding the candidate `candidate` to the poll
    /// `poll_id`.
    pub fn resolve(program_id: &Address, signer: &Address, poll_id: u64, candidate: &str) -> (r:
        Option<Self>)
        ensures
            match r {
                Some(a) => a.signer == *signer && poll_address(program_id@, poll_id) == Some(
                    a.poll_account@,
                ) && candidate_address(program_id@, poll_id, candidate@) == Some(
                    a.candidate_account@,
                ),
                None => poll_address(program_id@, poll_id) is None || candidate_address(
                    program_id@,
                    poll_id,
                    candidate@,
                ) is None,
            },
    {
        let poll_account = match locate_poll(program_id, poll_id) {
            Some(a) => a,
            None => return None,
        };
        let candidate_account = match locate_candidate(program_id, poll_id, candidate) {
            Some(a) => a,
            None => return None,
        };
        Some(InitializeCandidate { signer: *signer, poll_account, candidate_account })
    }
}

impl RegisterVoter {
    /// Finds the accounts for registering `signer` with the poll `poll_id`.
    pub fn resolve(program_id: &Address, signer: &Address, poll_id: u64) -> (r: Option<Self>)
        ensures
            match r {
                Some(a) => a.signer == *signer && voter_address(program_id@, poll_id, signer@)
                    == Some(a.voter_account@),
                None => voter_address(program_id@, poll_id, signer@) is None,
            },
    {
        match locate_voter(program_id, poll_id, signer) {
            Some(voter_account) => Some(RegisterVoter { signer: *signer, voter_account }),
            None => None,
        }
    }
}

impl Vote {
    /// Finds the accounts for a vote by `signer` for `candidate` in the poll
    /// `poll_id`.
    pub fn resolve(program_id: &Address, signer: &Address, poll_id: u64, candidate: &str) -> (r:
        Option<Self>)
        ensures
            match r {
                Some(a) => a.signer == *signer && poll_address(program_id@, poll_id) == Some(
                    a.poll_account@,
                ) && candidate_address(program_id@, poll_id, candidate@) == Some(
                    a.candidate_account@,
                ) && voter_address(program_id@, poll_id, signer@) == Some(a.voter_account@),
                None => poll_address(program_id@, poll_id) is None || candidate_address(
                    program_id@,
                    poll_id,
                    candidate@,
                ) is None || voter_address(program_id@, poll_id, signer@) is None,
            },
    {
        let poll_account = match locate_poll(program_id, poll_id) {
            Some(a) => a,
            None => return None,
        };
        let candidate_account = match locate_candidate(program_id, poll_id, candidate) {
            Some(a) => a,
            None => return None,
        };
        let voter_account = match locate_voter(program_id, poll_id, signer) {
            Some(a) => a,
            None => return None,
        };
        Some(Vote { signer: *signer, poll_account, candidate_account, voter_account })
    }
}

impl GetPollResults {
    /// Finds the account of the candidate `candidate` of the poll `poll_id`.
    pub fn resolve(program_id: &Address, poll_id: u64, candidate: &str) -> (r: Option<Self>)
        ensures
            match r {
                Some(a) => candidate_address(program_id@, poll_id, candidate@) == Some(
                    a.candidate_account@,
                ),
                None => candidate_address(program_id@, poll_id, candidate@) is None,
            },
    {
        match locate_candidate(program_id, poll_id, candidate) {
            Some(candidate_account) => Some(GetPollResults { candidate_account }),
            None => None,
        }
    }
}

} // verus!
