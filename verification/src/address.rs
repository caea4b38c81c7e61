//! Record addresses.
//!
//! Every record lives at an address computed from what identifies it: a
//! namespace tag, the poll identifier and, for candidates and voters, one more
//! component. Addresses are program derived addresses of the Solana runtime,
//! so a client that knows the key of a record can find it without an index.

use anchor_lang::prelude::Pubkey;
use vstd::bytes::{
    lemma_auto_spec_u64_to_from_le_bytes, spec_u64_from_le_bytes, spec_u64_to_le_bytes,
    u64_to_le_bytes,
};
use vstd::prelude::*;
use vstd::slice::slice_to_vec;
use vstd::utf8::{encode_utf8, encode_utf8_decode_utf8};

verus! {

/// Number of bytes in an address.
pub const ADDRESS_BYTES: usize = 32;

/// Largest number of bytes in one component of a derivation.
pub const MAX_SEED_LEN: usize = 32;

/// A 32-byte identity: the address of a record, of a program, or of a caller.
#[derive(Clone, Copy, Debug, PartialEq, Eq, Hash)]
pub struct Address {
    pub bytes: [u8; 32],
}

impl View for Address {
    type V = Seq<u8>;

    open spec fn view(&self) -> Seq<u8> {
        self.bytes@
    }
}

impl Address {
    /// The address with the given bytes.
    pub fn new(bytes: [u8; 32]) -> (r: Address)
        ensures
            r@ == bytes@,
            r.bytes == bytes,
    {
        Address { bytes }
    }

    /// Whether two addresses hold the same bytes.
    pub fn same(&self, other: &Address) -> (r: bool)
        ensures
            r == (self@ == other@),
    {
        let mut i: usize = 0;
        while i < 32
            invariant
                i <= 32,
                forall|j: int| 0 <= j < i ==> self.bytes@[j] == other.bytes@[j],
            decreases 32 - i,
        {
            if self.bytes[i] != other.bytes[i] {
                assert(self@[i as int] != other@[i as int]);
                return false;
            }
            i += 1;
        }
        assert(self@ =~= other@);
        true
    }

    /// The bytes of the address, in order.
    pub fn to_vec(&self) -> (r: Vec<u8>)
        ensures
            r@ == self@,
    {
        slice_to_vec(self.bytes.as_slice())
    }
}

/// The program derived address and bump seed that the runtime assigns to a
/// list of seeds under a program, or `None` where it assigns none.
pub uninterp spec fn program_derived_address(seeds: Seq<Seq<u8>>, program_id: Seq<u8>) -> Option<
    (Seq<u8>, u8),
>;

/// The bytes of each seed, in order.
pub open spec fn seed_bytes(seeds: Seq<Vec<u8>>) -> Seq<Seq<u8>> {
    Seq::new(seeds.len(), |i: int| seeds[i]@)
}

/// Calls `Pubkey::try_find_program_address`. The search it runs (hashing the
/// seeds with a bump seed until the digest is off the curve) is not restated
/// here: its answer is `program_derived_address` of the same seeds and program,
/// and this is taken on trust.
#[verifier::external_body]
fn try_find_program_address(seeds: &Vec<Vec<u8>>, program_id: &Address) -> (r: Option<(Address, u8)>)
    ensures
        match r {
            Some((address, bump)) => program_derived_address(seed_bytes(seeds@), program_id@)
                == Some((address@, bump)),
            None => program_derived_address(seed_bytes(seeds@), program_id@) is None,
        },
{
    let slices: Vec<&[u8]> = seeds.iter().map(|s| s.as_slice()).collect();
    let program = Pubkey::new_from_array(program_id.bytes);
    match Pubkey::try_find_program_address(&slices, &program) {
        Some((key, bump)) => Some((Address { bytes: key.to_bytes() }, bump)),
        None => None,
    }
}

/// The seeds of a record: its tag, the poll identifier in little-endian
/// bytes, then the extra component if there is one.
pub open spec fn seeds_of(tag: Seq<u8>, poll_id: u64, extra: Option<Seq<u8>>) -> Seq<Seq<u8>> {
    match extra {
        Some(e) => seq![tag, spec_u64_to_le_bytes(poll_id), e],
        None => seq![tag, spec_u64_to_le_bytes(poll_id)],
    }
}

/// Whether any component is longer than a seed may be.
pub open spec fn oversized(tag: Seq<u8>, extra: Option<Seq<u8>>) -> bool {
    tag.len() > MAX_SEED_LEN || (extra matches Some(e) && e.len() > MAX_SEED_LEN)
}

/// The address of the record with the given tag, poll and extra component
/// under a program: none where a component is oversized, otherwise the
/// program derived address of the record's seeds.
pub open spec fn derived_address(
    program_id: Seq<u8>,
    tag: Seq<u8>,
    poll_id: u64,
    extra: Option<Seq<u8>>,
) -> Option<Seq<u8>> {
    if oversized(tag, extra) {
        None
    } else {
        match program_derived_address(seeds_of(tag, poll_id, extra), program_id) {
            Some((address, _)) => Some(address),
            None => None,
        }
    }
}

/// Computes the address of a record. Equal inputs give equal addresses.
/// Oversized components are refused before anything is derived.
pub fn derive_address(program_id: &Address, tag: &[u8], poll_id: u64, extra: Option<&[u8]>) -> (r: Option<
    Address,
>)
    ensures
        match r {
            Some(address) => derived_address(
                program_id@,
                tag@,
                poll_id,
                match extra {
                    Some(e) => Some(e@),
                    None => None,
                },
            ) == Some(address@),
            None => derived_address(
                program_id@,
                tag@,
                poll_id,
                match extra {
                    Some(e) => Some(e@),
                    None => None,
                },
            ) is None,
        },
{
    if tag.len() > MAX_SEED_LEN {
        return None;
    }
    let mut seeds: Vec<Vec<u8>> = Vec::new();
    seeds.push(slice_to_vec(tag));
    seeds.push(u64_to_le_bytes(poll_id));
    match extra {
        Some(e) => {
            if e.len() > MAX_SEED_LEN {
                return None;
            }
            seeds.push(slice_to_vec(e));
        },
        None => {},
    }
    assert(seed_bytes(seeds@) =~= seeds_of(
        tag@,
        poll_id,
        match extra {
            Some(e) => Some(e@),
            None => None,
        },
    ));
    match try_find_program_address(&seeds, program_id) {
        Some((address, _)) => Some(address),
        None => None,
    }
}

/// The tag of poll addresses: the bytes of `poll`.
pub open spec fn poll_tag() -> Seq<u8> {
    seq![112u8, 111u8, 108u8, 108u8]
}

/// The tag of candidate addresses: the bytes of `candidate`.
pub open spec fn candidate_tag() -> Seq<u8> {
    seq![99u8, 97u8, 110u8, 100u8, 105u8, 100u8, 97u8, 116u8, 101u8]
}

/// The tag of voter addresses: the bytes of `voter`.
pub open spec fn voter_tag() -> Seq<u8> {
    seq![118u8, 111u8, 116u8, 101u8, 114u8]
}

/// The address of the poll `poll_id` under a program.
pub open spec fn poll_address(program_id: Seq<u8>, poll_id: u64) -> Option<Seq<u8>> {
    derived_address(program_id, poll_tag(), poll_id, None)
}

/// The address of the candidate called `name` in the poll `poll_id`.
pub open spec fn candidate_address(program_id: Seq<u8>, poll_id: u64, name: Seq<char>) -> Option<
    Seq<u8>,
> {
    derived_address(program_id, candidate_tag(), poll_id, Some(encode_utf8(name)))
}

/// The address of the registration of `voter` with the poll `poll_id`.
pub open spec fn voter_address(program_id: Seq<u8>, poll_id: u64, voter: Seq<u8>) -> Option<
    Seq<u8>,
> {
    derived_address(program_id, voter_tag(), poll_id, Some(voter))
}

/// Derives the address of a poll.
pub fn locate_poll(program_id: &Address, poll_id: u64) -> (r: Option<Address>)
    ensures
        match r {
            Some(a) => poll_address(program_id@, poll_id) == Some(a@),
            None => poll_address(program_id@, poll_id) is None,
        },
{
    let tag: [u8; 4] = [112u8, 111u8, 108u8, 108u8];
    assert(tag@ =~= poll_tag());
    derive_address(program_id, tag.as_slice(), poll_id, None)
}

/// Derives the address of a candidate. A name of more than `MAX_SEED_LEN`
/// bytes has none.
pub fn locate_candidate(program_id: &Address, poll_id: u64, name: &str) -> (r: Option<Address>)
    ensures
        match r {
            Some(a) => candidate_address(program_id@, poll_id, name@) == Some(a@),
            None => candidate_address(program_id@, poll_id, name@) is None,
        },
{
    let tag: [u8; 9] = [99u8, 97u8, 110u8, 100u8, 105u8, 100u8, 97u8, 116u8, 101u8];
    assert(tag@ =~= candidate_tag());
    derive_address(program_id, tag.as_slice(), poll_id, Some(name.as_bytes()))
}

/// Derives the address of a voter's registration.
pub fn locate_voter(program_id: &Address, poll_id: u64, voter: &Address) -> (r: Option<Address>)
    ensures
        match r {
            Some(a) => voter_address(program_id@, poll_id, voter@) == Some(a@),
            None => voter_address(program_id@, poll_id, voter@) is None,
        },
{
    let tag: [u8; 5] = [118u8, 111u8, 116u8, 101u8, 114u8];
    assert(tag@ =~= voter_tag());
    derive_address(program_id, tag.as_slice(), poll_id, Some(voter.bytes.as_slice()))
}

/// The bytes that the seeds of a record give to the digest from which its
/// address is made: the seeds, one after the other.
pub open spec fn key_bytes(tag: Seq<u8>, poll_id: u64, extra: Option<Seq<u8>>) -> Seq<u8> {
    seeds_of(tag, poll_id, extra).flatten()
}

/// The key bytes of a poll.
pub open spec fn poll_key_bytes(poll_id: u64) -> Seq<u8> {
    key_bytes(poll_tag(), poll_id, None)
}

/// The key bytes of a candidate.
pub open spec fn candidate_key_bytes(poll_id: u64, name: Seq<char>) -> Seq<u8> {
    key_bytes(candidate_tag(), poll_id, Some(encode_utf8(name)))
}

/// The key bytes of a voter's registration.
pub open spec fn voter_key_bytes(poll_id: u64, voter: Seq<u8>) -> Seq<u8> {
    key_bytes(voter_tag(), poll_id, Some(voter))
}

/// The key bytes of a record are its tag, then the eight bytes of the poll
/// identifier, then the extra component.
pub proof fn key_bytes_in_full(tag: Seq<u8>, poll_id: u64, extra: Option<Seq<u8>>)
    ensures
        spec_u64_to_le_bytes(poll_id).len() == 8,
        key_bytes(tag, poll_id, extra) == tag + spec_u64_to_le_bytes(poll_id) + match extra {
            Some(e) => e,
            None => Seq::empty(),
        },
{
    reveal_with_fuel(Seq::flatten, 4);
    lemma_auto_spec_u64_to_from_le_bytes();
    let id = spec_u64_to_le_bytes(poll_id);
    match extra {
        Some(e) => {
            let seeds = seq![tag, id, e];
            assert(seeds.drop_first() =~= seq![id, e]);
            assert(seeds.drop_first().drop_first() =~= seq![e]);
            assert(seeds.drop_first().drop_first().drop_first() =~= Seq::<Seq<u8>>::empty());
            assert(seeds.flatten() =~= tag + id + e);
        },
        None => {
            let seeds = seq![tag, id];
            assert(seeds.drop_first() =~= seq![id]);
            assert(seeds.drop_first().drop_first() =~= Seq::<Seq<u8>>::empty());
            assert(seeds.flatten() =~= tag + id + Seq::<u8>::empty());
        },
    }
}

/// Records with the same tag and the same key bytes have the same poll
/// identifier and the same extra component.
pub proof fn key_bytes_tell_keys_apart(
    tag: Seq<u8>,
    first: (u64, Seq<u8>),
    second: (u64, Seq<u8>),
)
    requires
        key_bytes(tag, first.0, Some(first.1)) == key_bytes(tag, second.0, Some(second.1)),
    ensures
        first == second,
{
    key_bytes_in_full(tag, first.0, Some(first.1));
    key_bytes_in_full(tag, second.0, Some(second.1));
    lemma_auto_spec_u64_to_from_le_bytes();
    let a = spec_u64_to_le_bytes(first.0);
    let b = spec_u64_to_le_bytes(second.0);
    let whole_a = tag + a + first.1;
    let whole_b = tag + b + second.1;
    let n = tag.len() as int;
    assert(whole_a.subrange(n, n + 8) =~= a);
    assert(whole_b.subrange(n, n + 8) =~= b);
    assert(spec_u64_from_le_bytes(a) == spec_u64_from_le_bytes(b));
    assert(whole_a.subrange(n + 8, whole_a.len() as int) =~= first.1);
    assert(whole_b.subrange(n + 8, whole_b.len() as int) =~= second.1);
}

/// Different records are told apart before anything is hashed. The key
/// bytes of a poll, of a candidate and of a voter start with different
/// bytes, so no two records of different kinds share them; and two records
/// of one kind share them only if they are the same record: the same poll,
/// the same candidate name in the same poll, the same voter in the same
/// poll.
pub proof fn records_have_key_bytes_of_their_own(
    first: (u64, Seq<char>, Seq<u8>),
    second: (u64, Seq<char>, Seq<u8>),
)
    ensures
        poll_key_bytes(first.0) != candidate_key_bytes(second.0, second.1),
        poll_key_bytes(first.0) != voter_key_bytes(second.0, second.2),
        candidate_key_bytes(first.0, first.1) != voter_key_bytes(second.0, second.2),
        poll_key_bytes(first.0) == poll_key_bytes(second.0) ==> first.0 == second.0,
        candidate_key_bytes(first.0, first.1) == candidate_key_bytes(second.0, second.1)
            ==> first.0 == second.0 && first.1 == second.1,
        voter_key_bytes(first.0, first.2) == voter_key_bytes(second.0, second.2) ==> first.0
            == second.0 && first.2 == second.2,
{
    key_bytes_in_full(poll_tag(), first.0, None);
    key_bytes_in_full(poll_tag(), second.0, None);
    key_bytes_in_full(candidate_tag(), first.0, Some(encode_utf8(first.1)));
    key_bytes_in_full(candidate_tag(), second.0, Some(encode_utf8(second.1)));
    key_bytes_in_full(voter_tag(), first.0, Some(first.2));
    key_bytes_in_full(voter_tag(), second.0, Some(second.2));
    assert(poll_key_bytes(first.0)[0] == 112u8);
    assert(candidate_key_bytes(first.0, first.1)[0] == 99u8);
    assert(candidate_key_bytes(second.0, second.1)[0] == 99u8);
    assert(voter_key_bytes(second.0, second.2)[0] == 118u8);
    if poll_key_bytes(first.0) == poll_key_bytes(second.0) {
        assert(key_bytes(poll_tag(), first.0, Some(Seq::<u8>::empty())) == poll_key_bytes(first.0))
            by {
            key_bytes_in_full(poll_tag(), first.0, Some(Seq::<u8>::empty()));
        }
        assert(key_bytes(poll_tag(), second.0, Some(Seq::<u8>::empty())) == poll_key_bytes(
            second.0,
        )) by {
            key_bytes_in_full(poll_tag(), second.0, Some(Seq::<u8>::empty()));
        }
        key_bytes_tell_keys_apart(
            poll_tag(),
            (first.0, Seq::<u8>::empty()),
            (second.0, Seq::<u8>::empty()),
        );
    }
    if candidate_key_bytes(first.0, first.1) == candidate_key_bytes(second.0, second.1) {
        key_bytes_tell_keys_apart(
            candidate_tag(),
            (first.0, encode_utf8(first.1)),
            (second.0, encode_utf8(second.1)),
        );
        encode_utf8_decode_utf8(first.1);
        encode_utf8_decode_utf8(second.1);
    }
    if voter_key_bytes(first.0, first.2) == voter_key_bytes(second.0, second.2) {
        key_bytes_tell_keys_apart(voter_tag(), (first.0, first.2), (second.0, second.2));
    }
}

} // verus!
