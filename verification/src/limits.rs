//! The fixed limits of the protocol, and how the length of a text is taken.

use vstd::prelude::*;
use vstd::utf8::encode_utf8;

verus! {

/// Smallest collateral, in the smallest currency unit, with which a provider
/// may register and stay active.
pub const MIN_STAKE: u64 = 100_000_000;

/// Longest provider name, in bytes.
pub const MAX_NAME_LEN: usize = 64;

/// Longest service endpoint, in bytes.
pub const MAX_ENDPOINT_LEN: usize = 256;

/// Longest violation description, in bytes.
pub const MAX_DESCRIPTION_LEN: usize = 512;

/// The length of a text, counted in the bytes of its UTF-8 encoding.
pub open spec fn byte_len(text: Seq<char>) -> nat {
    encode_utf8(text).len()
}

/// Whether `text` is at most `limit` bytes long.
pub fn fits(text: &String, limit: usize) -> (r: bool)
    ensures
        r == (byte_len(text@) <= limit),
{
    text.as_str().as_bytes().len() <= limit
}

} // verus!
