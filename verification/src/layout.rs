//! How records are laid out, and the bounds that their fixed size puts on
//! their text fields.

use crate::address::MAX_SEED_LEN;
use vstd::prelude::*;
use vstd::utf8::encode_utf8;

verus! {

/// Largest number of bytes in the name of a poll or of a candidate. The name
/// of a candidate is a component of its address, and is as long as one may be.
pub const MAX_NAME_LEN: usize = MAX_SEED_LEN;

/// Largest number of bytes in the description of a poll.
pub const MAX_DESCRIPTION_LEN: usize = 280;

/// Bytes at the head of every record that tell its kind.
pub const DISCRIMINATOR_LEN: usize = 8;

/// Bytes in front of a text that hold its length.
pub const LENGTH_PREFIX_LEN: usize = 4;

/// The number of bytes in a text.
pub open spec fn byte_len(text: Seq<char>) -> nat {
    encode_utf8(text).len()
}

/// The number of bytes that a text takes in a record: its length, then its
/// bytes.
pub open spec fn text_space(text: Seq<char>) -> nat {
    LENGTH_PREFIX_LEN as nat + byte_len(text)
}

/// Whether a text takes at most `limit` bytes.
pub fn fits(text: &str, limit: usize) -> (r: bool)
    ensures
        r == (byte_len(text@) <= limit),
{
    text.as_bytes().len() <= limit
}

} // verus!
