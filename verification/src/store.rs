//! A record store: at most one record at each address.

use crate::address::Address;
use vstd::prelude::*;

verus! {

/// One occupied address and the record that lives there.
struct Entry<R> {
    address: Address,
    record: R,
}

/// Records keyed by address. The model is a map from the bytes of an address
/// to the view of the record at it.
pub struct RecordStore<R> {
    entries: Vec<Entry<R>>,
}

/// Whether entry `i` of `entries` sits at `address`.
spec fn sits_at<R>(entries: Seq<Entry<R>>, i: int, address: Seq<u8>) -> bool {
    0 <= i < entries.len() && entries[i].address@ == address
}

/// Whether no two entries share an address.
spec fn distinct<R>(entries: Seq<Entry<R>>) -> bool {
    forall|i: int, j: int|
        0 <= i < entries.len() && 0 <= j < entries.len() && entries[i].address@
            == entries[j].address@ ==> i == j
}

/// The map that a list of entries stands for.
spec fn contents<R: View>(entries: Seq<Entry<R>>) -> Map<Seq<u8>, R::V> {
    Map::new(
        |a: Seq<u8>| exists|i: int| sits_at(entries, i, a),
        |a: Seq<u8>| entries[choose|i: int| sits_at(entries, i, a)].record@,
    )
}

impl<R: View> View for RecordStore<R> {
    type V = Map<Seq<u8>, R::V>;

    closed spec fn view(&self) -> Map<Seq<u8>, R::V> {
        contents(self.entries@)
    }
}

impl<R> RecordStore<R> {
    #[verifier::type_invariant]
    spec fn well_formed(&self) -> bool {
        distinct(self.entries@)
    }
}

impl<R: View> RecordStore<R> {
    /// The empty store.
    pub fn new() -> (r: Self)
        ensures
            r@ == Map::<Seq<u8>, R::V>::empty(),
    {
        let r = RecordStore { entries: Vec::new() };
        assert(r@ =~= Map::<Seq<u8>, R::V>::empty());
        r
    }

    /// The position of the entry at `address`, if there is one.
    fn position(&self, address: &Address) -> (r: Option<usize>)
        ensures
            match r {
                Some(i) => sits_at(self.entries@, i as int, address@),
                None => forall|i: int| !sits_at(self.entries@, i, address@),
            },
    {
        let mut i: usize = 0;
        while i < self.entries.len()
            invariant
                i <= self.entries@.len(),
                forall|j: int| 0 <= j < i ==> !sits_at(self.entries@, j, address@),
            decreases self.entries@.len() - i,
        {
            if self.entries[i].address.same(address) {
                return Some(i);
            }
            i += 1;
        }
        None
    }

    /// Reads the record at `address`: `None` exactly where the address is
    /// vacant.
    pub fn get(&self, address: &Address) -> (r: Option<&R>)
        ensures
            match r {
                Some(record) => self@.contains_key(address@) && self@[address@] == record@,
                None => !self@.contains_key(address@),
            },
    {
        proof {
            use_type_invariant(self);
        }
        match self.position(address) {
            Some(i) => {
                assert(sits_at(self.entries@, i as int, address@));
                Some(&self.entries[i].record)
            },
            None => None,
        }
    }

    /// Whether a record lives at `address`.
    pub fn contains(&self, address: &Address) -> (r: bool)
        ensures
            r == self@.contains_key(address@),
    {
        match self.position(address) {
            Some(i) => {
                assert(sits_at(self.entries@, i as int, address@));
                true
            },
            None => false,
        }
    }

    /// Writes `record` at `address`, in place of the record there if the
    /// address is occupied. No other address changes.
    pub fn put(&mut self, address: Address, record: R)
        ensures
            final(self)@ == old(self)@.insert(address@, record@),
    {
        proof {
            use_type_invariant(&*self);
        }
        let ghost before = self.entries@;
        let found = self.position(&address);
        let mut entries: Vec<Entry<R>> = Vec::new();
        core::mem::swap(&mut self.entries, &mut entries);
        match found {
            Some(i) => {
                entries.set(i, Entry { address, record });
                proof {
                    let after = entries@;
                    assert forall|a: Seq<u8>, k: int| sits_at(after, k, a) <==> sits_at(
                        before,
                        k,
                        a,
                    ) by {}
                    assert(sits_at(after, i as int, address@));
                    assert(contents(after) =~= contents(before).insert(address@, record@));
                }
            },
            None => {
                entries.push(Entry { address, record });
                proof {
                    let after = entries@;
                    let n = before.len() as int;
                    assert(sits_at(after, n, address@));
                    assert forall|a: Seq<u8>, k: int| sits_at(before, k, a) implies sits_at(
                        after,
                        k,
                        a,
                    ) by {}
                    assert forall|a: Seq<u8>, k: int| sits_at(after, k, a) && k != n implies sits_at(
                        before,
                        k,
                        a,
                    ) by {}
                    assert(distinct(after)) by {
                        assert forall|i: int, j: int|
                            0 <= i < after.len() && 0 <= j < after.len() && after[i].address@
                                == after[j].address@ implies i == j by {
                            if i != n && j != n {
                                assert(before[i].address@ == before[j].address@);
                            } else if i != n {
                                assert(sits_at(before, i, address@));
                            } else if j != n {
                                assert(sits_at(before, j, address@));
                            }
                        }
                    }
                    assert(contents(after) =~= contents(before).insert(address@, record@));
                }
            },
        }
        core::mem::swap(&mut self.entries, &mut entries);
    }
}

} // verus!
