//! Deterministic derivation of short identifiers from target URLs.
//!
//! A target's identifier is a fixed-length lowercase hexadecimal prefix of
//! the BLAKE3 digest of its UTF-8 bytes.

use vstd::prelude::*;
use vstd::string::*;

verus! {

/// Length, in characters, of an automatically derived identifier.
pub const RANDOM_URL_SIZE: usize = 5;

/// The full 64-character lowercase hexadecimal BLAKE3 digest of a string,
/// as a function of its characters alone.
pub uninterp spec fn blake3_hex_of(s: Seq<char>) -> Seq<char>;

/// Characters that may appear in a lowercase hexadecimal digest.
pub open spec fn is_lower_hex_char(c: char) -> bool {
    ('0' <= c && c <= '9') || ('a' <= c && c <= 'f')
}

/// The identifier derived from a target: the first `RANDOM_URL_SIZE`
/// characters of its BLAKE3 hex digest.
pub open spec fn derived_id(s: Seq<char>) -> Seq<char> {
    blake3_hex_of(s).subrange(0, RANDOM_URL_SIZE as int)
}

/// Relies on `blake3::hash` and `blake3::Hash::to_hex`: the digest depends
/// on the input bytes alone, and `to_hex` renders its 32 bytes as 64
/// lowercase hexadecimal characters.
#[verifier::external_body]
fn blake3_hex(input: &str) -> (r: String)
    ensures
        r@ == blake3_hex_of(input@),
        r@.len() == 64,
        forall|i: int| 0 <= i < r@.len() ==> is_lower_hex_char(#[trigger] r@[i]),
{
    blake3::hash(input.as_bytes()).to_hex().as_str().to_string()
}

/// hash returns a short hash of the string passed as a parameter.
pub fn hash(input: &str) -> (r: String)
    ensures
        r@ == derived_id(input@),
        r@.len() == RANDOM_URL_SIZE,
        forall|i: int| 0 <= i < r@.len() ==> is_lower_hex_char(#[trigger] r@[i]),
{
    let digest = blake3_hex(input);
    let prefix = digest.as_str().substring_char(0, RANDOM_URL_SIZE);
    prefix.to_owned()
}

} // verus!
