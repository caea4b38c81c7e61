//! The records of one deployment of the extended program.

use crate::address::Address;
use crate::extended::records::{
    candidate_views, shown_views, Candidate, CandidateView, Poll, Record, RecordView, Voter,
};
use crate::store::RecordStore;
use vstd::prelude::*;

verus! {

/// Whether a poll lives at `at`.
pub open spec fn holds_poll(s: Map<Seq<u8>, RecordView>, at: Seq<u8>) -> bool {
    s.contains_key(at) && s[at] is Poll
}

/// Whether a candidate lives at `at`.
pub open spec fn holds_candidate(s: Map<Seq<u8>, RecordView>, at: Seq<u8>) -> bool {
    s.contains_key(at) && s[at] is Candidate
}

/// Whether a voter lives at `at`.
pub open spec fn holds_voter(s: Map<Seq<u8>, RecordView>, at: Seq<u8>) -> bool {
    s.contains_key(at) && s[at] is Voter
}

/// The bytes of each address, in order.
pub open spec fn address_bytes(addresses: Seq<Address>) -> Seq<Seq<u8>> {
    Seq::new(addresses.len(), |i: int| addresses[i]@)
}

/// What reading each of the addresses as a candidate gives, in order:
/// `None` where no candidate lives.
pub open spec fn shown_at(s: Map<Seq<u8>, RecordView>, addresses: Seq<Seq<u8>>) -> Seq<
    Option<CandidateView>,
> {
    Seq::new(
        addresses.len(),
        |i: int|
            if holds_candidate(s, addresses[i]) {
                Some(s[addresses[i]]->Candidate_0)
            } else {
                None
            },
    )
}

/// Whether a candidate lives at each of the addresses.
pub open spec fn all_candidates(s: Map<Seq<u8>, RecordView>, addresses: Seq<Seq<u8>>) -> bool {
    forall|i: int| 0 <= i < addresses.len() ==> holds_candidate(s, #[trigger] addresses[i])
}

/// The candidates at the addresses, in order.
pub open spec fn candidates_at(s: Map<Seq<u8>, RecordView>, addresses: Seq<Seq<u8>>) -> Seq<
    CandidateView,
> {
    Seq::new(addresses.len(), |i: int| s[addresses[i]]->Candidate_0)
}

/// The records of one deployment of the program. The model is the map from
/// the bytes of each occupied address to the record there.
pub struct Ledger {
    program_id: Address,
    records: RecordStore<Record>,
}

impl View for Ledger {
    type V = Map<Seq<u8>, RecordView>;

    closed spec fn view(&self) -> Map<Seq<u8>, RecordView> {
        self.records@
    }
}

impl Ledger {
    /// The bytes of the program's address.
    pub closed spec fn program(&self) -> Seq<u8> {
        self.program_id@
    }

    /// A ledger without records for the program at `program_id`.
    pub fn new(program_id: Address) -> (r: Ledger)
        ensures
            r@ == Map::<Seq<u8>, RecordView>::empty(),
            r.program() == program_id@,
    {
        Ledger { program_id, records: RecordStore::new() }
    }

    /// The address of the program.
    pub fn program_id(&self) -> (r: Address)
        ensures
            r@ == self.program(),
    {
        self.program_id
    }

    /// Whether a record lives at `at`.
    pub fn occupied(&self, at: &Address) -> (r: bool)
        ensures
            r == self@.contains_key(at@),
    {
        self.records.contains(at)
    }

    /// Writes `record` at `at`, in place of the record there if there is
    /// one. This is how records that are kept elsewhere come into a ledger;
    /// the rules of the program are those of its instructions, which write
    /// through it.
    pub fn put(&mut self, at: Address, record: Record)
        ensures
            final(self)@ == old(self)@.insert(at@, record@),
            final(self).program() == old(self).program(),
    {
        self.records.put(at, record);
    }

    /// The record at `at`, if the address is occupied.
    pub fn record(&self, at: &Address) -> (r: Option<&Record>)
        ensures
            match r {
                Some(record) => self@.contains_key(at@) && self@[at@] == record@,
                None => !self@.contains_key(at@),
            },
    {
        self.records.get(at)
    }

    /// The poll at `at`, if a poll lives there.
    pub fn poll(&self, at: &Address) -> (r: Option<&Poll>)
        ensures
            match r {
                Some(p) => holds_poll(self@, at@) && self@[at@] == RecordView::Poll(p@),
                None => !holds_poll(self@, at@),
            },
    {
        match self.records.get(at) {
            Some(Record::Poll(p)) => Some(p),
            _ => None,
        }
    }

    /// The candidate at `at`, if a candidate lives there.
    pub fn candidate(&self, at: &Address) -> (r: Option<&Candidate>)
        ensures
            match r {
                Some(c) => holds_candidate(self@, at@) && self@[at@] == RecordView::Candidate(c@),
                None => !holds_candidate(self@, at@),
            },
    {
        match self.records.get(at) {
            Some(Record::Candidate(c)) => Some(c),
            _ => None,
        }
    }

    /// The voter at `at`, if a voter lives there.
    pub fn voter(&self, at: &Address) -> (r: Option<Voter>)
        ensures
            match r {
                Some(v) => holds_voter(self@, at@) && self@[at@] == RecordView::Voter(v),
                None => !holds_voter(self@, at@),
            },
    {
        match self.records.get(at) {
            Some(Record::Voter(v)) => Some(*v),
            _ => None,
        }
    }

    /// Reads each of the addresses as a candidate, in order: `None` where no
    /// candidate lives.
    pub fn show(&self, addresses: &Vec<Address>) -> (r: Vec<Option<Candidate>>)
        ensures
            shown_views(r@) == shown_at(self@, address_bytes(addresses@)),
    {
        let mut shown: Vec<Option<Candidate>> = Vec::new();
        let mut i: usize = 0;
        while i < addresses.len()
            invariant
                i <= addresses@.len(),
                shown@.len() == i,
                forall|j: int|
                    0 <= j < i ==> #[trigger] shown_views(shown@)[j] == shown_at(
                        self@,
                        address_bytes(addresses@),
                    )[j],
            decreases addresses@.len() - i,
        {
            let next = match self.candidate(&addresses[i]) {
                Some(c) => Some(
                    Candidate {
                        candidate_name: c.candidate_name.clone(),
                        candidate_votes: c.candidate_votes,
                    },
                ),
                None => None,
            };
            let ghost before = shown@;
            shown.push(next);
            proof {
                assert forall|j: int| 0 <= j < i + 1 implies #[trigger] shown_views(shown@)[j]
                    == shown_at(self@, address_bytes(addresses@))[j] by {
                    if j < i {
                        assert(shown@[j] == before[j]);
                        assert(shown_views(before)[j] == shown_at(
                            self@,
                            address_bytes(addresses@),
                        )[j]);
                    }
                }
            }
            i += 1;
        }
        assert(shown_views(shown@) =~= shown_at(self@, address_bytes(addresses@)));
        shown
    }
}

impl Ledger {
    /// Reads the candidates at the addresses, in order: `None` where one of
    /// the addresses holds no candidate.
    pub fn candidates(&self, addresses: &Vec<Address>) -> (r: Option<Vec<Candidate>>)
        ensures
            match r {
                Some(found) => all_candidates(self@, address_bytes(addresses@)) && candidate_views(
                    found@,
                ) == candidates_at(self@, address_bytes(addresses@)),
                None => !all_candidates(self@, address_bytes(addresses@)),
            },
    {
        let ghost bytes = address_bytes(addresses@);
        let mut found: Vec<Candidate> = Vec::new();
        let mut i: usize = 0;
        while i < addresses.len()
            invariant
                i <= addresses@.len(),
                found@.len() == i,
                bytes == address_bytes(addresses@),
                forall|j: int| 0 <= j < i ==> holds_candidate(self@, #[trigger] bytes[j]),
                forall|j: int| 0 <= j < i ==> (#[trigger] found@[j])@ == self@[bytes[j]]->Candidate_0,
            decreases addresses@.len() - i,
        {
            match self.candidate(&addresses[i]) {
                Some(c) => {
                    found.push(
                        Candidate {
                            candidate_name: c.candidate_name.clone(),
                            candidate_votes: c.candidate_votes,
                        },
                    );
                },
                None => {
                    assert(!holds_candidate(self@, bytes[i as int]));
                    return None;
                },
            }
            i += 1;
        }
        assert(candidate_views(found@) =~= candidates_at(self@, bytes));
        Some(found)
    }
}

} // verus!
