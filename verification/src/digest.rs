//! The integrity digest of an archive.

use vstd::prelude::*;
use sha2::{Digest, Sha256};

verus! {

/// The SHA-256 digest of `data`, written as lowercase hex.
pub uninterp spec fn sha256_hex(data: Seq<u8>) -> Seq<char>;

/// Whether `c` is one of `0`..`9`, `a`..`f`.
pub open spec fn is_lower_hex(c: char) -> bool {
    ('0' <= c && c <= '9') || ('a' <= c && c <= 'f')
}

/// Whether `s` has the shape of a SHA-256 digest: 64 lowercase hex digits.
pub open spec fn is_hex_digest(s: Seq<char>) -> bool {
    s.len() == 64 && forall|i: int| 0 <= i < s.len() ==> is_lower_hex(#[trigger] s[i])
}

/// Calls `sha2::Sha256::digest` and formats its 32 bytes with `{:x}`.
/// Trusted: the result is the named digest of exactly these bytes, and it is
/// 64 lowercase hex digits long.
#[verifier::external_body]
fn sha256_hex_of(data: &[u8]) -> (r: String)
    ensures
        r@ == sha256_hex(data@),
        is_hex_digest(r@),
{
    format!("{:x}", Sha256::digest(data))
}

/// The digest string of a file with these contents.
pub fn file_digest_string(contents: &[u8]) -> (r: String)
    ensures
        r@ == sha256_hex(contents@),
        is_hex_digest(r@),
{
    sha256_hex_of(contents)
}

} // verus!
