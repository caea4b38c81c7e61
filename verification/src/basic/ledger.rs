//! The records of one deployment of the basic program.

use crate::address::Address;
use crate::basic::records::{CandidateAccount, PollAccount, Record, RecordView, VoterAccount};
use crate::store::RecordStore;
use vstd::prelude::*;

verus! {

/// Whether a poll lives at `at`.
pub open spec fn holds_poll(s: Map<Seq<u8>, RecordView>, at: Seq<u8>) -> bool {
    s.contains_key(at) && s[at] is Poll
}

/// Whether a candidate lives at `at`.
pub open spec fn holds_candidate(s: Map<Seq<u8>, RecordView>, at: Seq<u8>) -> bool {
    s.contains_key(at) && s[at] is Candidate
}

/// Whether a voter lives at `at`.
pub open spec fn holds_voter(s: Map<Seq<u8>, RecordView>, at: Seq<u8>) -> bool {
    s.contains_key(at) && s[at] is Voter
}

/// The records of one deployment of the program. The model is the map from
/// the bytes of each occupied address to the record there.
pub struct Ledger {
    program_id: Address,
    records: RecordStore<Record>,
}

impl View for Ledger {
    type V = Map<Seq<u8>, RecordView>;

    closed spec fn view(&self) -> Map<Seq<u8>, RecordView> {
        self.records@
    }
}

impl Ledger {
    /// The bytes of the program's address.
    pub closed spec fn program(&self) -> Seq<u8> {
        self.program_id@
    }

    /// A ledger without records for the program at `program_id`.
    pub fn new(program_id: Address) -> (r: Ledger)
        ensures
            r@ == Map::<Seq<u8>, RecordView>::empty(),
            r.program() == program_id@,
    {
        Ledger { program_id, records: RecordStore::new() }
    }

    /// The address of the program.
    pub fn program_id(&self) -> (r: Address)
        ensures
            r@ == self.program(),
    {
        self.program_id
    }

    /// Whether a record lives at `at`.
    pub fn occupied(&self, at: &Address) -> (r: bool)
        ensures
            r == self@.contains_key(at@),
    {
        self.records.contains(at)
    }

    /// Writes `record` at `at`, in place of the record there if there is
    /// one. This is how records that are kept elsewhere come into a ledger;
    /// the rules of the program are those of its instructions, which write
    /// through it.
    pub fn put(&mut self, at: Address, record: Record)
        ensures
            final(self)@ == old(self)@.insert(at@, record@),
            final(self).program() == old(self).program(),
    {
        self.records.put(at, record);
    }

    /// The record at `at`, if the address is occupied.
    pub fn record(&self, at: &Address) -> (r: Option<&Record>)
        ensures
            match r {
                Some(record) => self@.contains_key(at@) && self@[at@] == record@,
                None => !self@.contains_key(at@),
            },
    {
        self.records.get(at)
    }

    /// The poll at `at`, if a poll lives there.
    pub fn poll(&self, at: &Address) -> (r: Option<&PollAccount>)
        ensures
            match r {
                Some(p) => holds_poll(self@, at@) && self@[at@] == RecordView::Poll(p@),
                None => !holds_poll(self@, at@),
            },
    {
        match self.records.get(at) {
            Some(Record::Poll(p)) => Some(p),
            _ => None,
        }
    }

    /// The candidate at `at`, if a candidate lives there.
    pub fn candidate(&self, at: &Address) -> (r: Option<&CandidateAccount>)
        ensures
            match r {
                Some(c) => holds_candidate(self@, at@) && self@[at@] == RecordView::Candidate(c@),
                None => !holds_candidate(self@, at@),
            },
    {
        match self.records.get(at) {
            Some(Record::Candidate(c)) => Some(c),
            _ => None,
        }
    }

    /// The voter at `at`, if a voter lives there.
    pub fn voter(&self, at: &Address) -> (r: Option<VoterAccount>)
        ensures
            match r {
                Some(v) => holds_voter(self@, at@) && self@[at@] == RecordView::Voter(v),
                None => !holds_voter(self@, at@),
            },
    {
        match self.records.get(at) {
            Some(Record::Voter(v)) => Some(*v),
            _ => None,
        }
    }
}

} // verus!
