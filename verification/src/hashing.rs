//! Digests and their base-16 rendering.

use crate::digits::digit_char;
use crate::digits::digit_str;
use vstd::prelude::*;
use vstd::string::StringExecFns;

verus! {

/// Two lowercase base-16 characters for each byte, in order.
pub open spec fn hex_of(bytes: Seq<u8>) -> Seq<char>
    decreases bytes.len(),
{
    if bytes.len() == 0 {
        Seq::empty()
    } else {
        hex_of(bytes.drop_last()) + seq![
            digit_char((bytes.last() / 16) as nat),
            digit_char((bytes.last() % 16) as nat),
        ]
    }
}

pub proof fn lemma_hex_of_len(bytes: Seq<u8>)
    ensures
        hex_of(bytes).len() == 2 * bytes.len(),
    decreases bytes.len(),
{
    if bytes.len() > 0 {
        lemma_hex_of_len(bytes.drop_last());
    }
}

/// What the 256-bit digest of the UTF-8 bytes of a character sequence is.
/// The outside hash function fixes it; it depends on the characters alone.
pub uninterp spec fn sha256_of(s: Seq<char>) -> Seq<u8>;

/// Relies on sha2::Sha256 (through digest::Digest::digest): the SHA-256
/// digest of the string's UTF-8 bytes, 32 bytes long, a function of the
/// input alone.
#[verifier::external_body]
fn sha256_digest(s: &str) -> (r: Vec<u8>)
    ensures
        r@ == sha256_of(s@),
        r@.len() == 32,
{
    let out = <sha2::Sha256 as sha2::Digest>::digest(s.as_bytes());
    out.to_vec()
}

/// The digest of a character sequence, rendered in base 16.
pub open spec fn spec_hash_str(s: Seq<char>) -> Seq<char> {
    hex_of(sha256_of(s))
}

/// Renders a byte sequence in lowercase base 16, two characters per byte.
pub fn hex_to_string(bytes: &[u8]) -> (s: String)
    ensures
        s@ == hex_of(bytes@),
        s@.len() == 2 * bytes@.len(),
{
    let mut s = String::new();
    let mut i: usize = 0;
    while i < bytes.len()
        invariant
            i <= bytes@.len(),
            s@ == hex_of(bytes@.subrange(0, i as int)),
        decreases bytes@.len() - i,
    {
        let b = bytes[i];
        s.append(digit_str(b / 16));
        s.append(digit_str(b % 16));
        i = i + 1;
        proof {
            assert(bytes@.subrange(0, i as int).drop_last() =~= bytes@.subrange(0, i - 1));
            assert(bytes@.subrange(0, i as int).last() == bytes@[i - 1]);
            assert(s@ =~= hex_of(bytes@.subrange(0, i as int)));
        }
    }
    proof {
        assert(bytes@.subrange(0, bytes@.len() as int) =~= bytes@);
        lemma_hex_of_len(bytes@);
    }
    s
}

/// Digest of a string: 64 lowercase base-16 characters.
pub fn hash_str(s: &str) -> (r: String)
    ensures
        r@ == spec_hash_str(s@),
        r@.len() == 64,
{
    let d = sha256_digest(s);
    hex_to_string(d.as_slice())
}

} // verus!
