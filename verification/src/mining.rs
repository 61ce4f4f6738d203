//! The proof-of-work search and its acceptance predicate.

use crate::record::BlockHeader;
use crate::record::hash_header;
use crate::record::spec_hash_header;
use vstd::prelude::*;
use vstd::string::StrSliceExecFns;

verus! {

/// The difficulty predicate: the first `difficulty` characters of the digest
/// must all be the zero character.  Reading those characters as a decimal
/// numeral and asking for the value zero comes to the same thing — a numeral
/// with any other digit is not zero, and one holding a letter does not parse —
/// except for an empty prefix, which is taken here as accepted, so difficulty
/// zero accepts immediately.  A digest shorter than the difficulty never
/// qualifies, and a search against such a difficulty cannot end.
pub open spec fn accepted(digest: Seq<char>, difficulty: nat) -> bool {
    difficulty <= digest.len() && forall|i: int| 0 <= i < difficulty ==> digest[i] == '0'
}

/// Tests a digest against a difficulty.
pub fn meets_difficulty(digest: &str, difficulty: u32) -> (r: bool)
    ensures
        r == accepted(digest@, difficulty as nat),
{
    let n = digest.unicode_len();
    if (difficulty as usize) > n {
        return false;
    }
    let mut i: usize = 0;
    while i < difficulty as usize
        invariant
            difficulty as usize <= n,
            n == digest@.len(),
            i <= difficulty as usize,
            forall|j: int| 0 <= j < i ==> digest@[j] == '0',
        decreases difficulty as usize - i,
    {
        if digest.get_char(i) != '0' {
            return false;
        }
        i = i + 1;
    }
    true
}

/// A copy of a header carrying another nonce.
pub open spec fn with_nonce(h: BlockHeader, n: u64) -> BlockHeader {
    BlockHeader { nonce: n, ..h }
}

/// No nonce at all makes the header's digest meet the difficulty.
pub open spec fn no_nonce_works(h: BlockHeader, difficulty: nat) -> bool {
    forall|n: u64| !accepted(#[trigger] spec_hash_header(with_nonce(h, n)), difficulty)
}

/// The proof-of-work search: starting from the nonce the header carries, try
/// each nonce in turn until the digest of the whole header meets the header's
/// difficulty.  On a hit the header keeps the winning nonce — the first that
/// works — and the winning digest is returned.  `None` comes back only when
/// the remaining nonce space is exhausted without a hit.
pub fn proof_of_work(header: &mut BlockHeader) -> (r: Option<String>)
    ensures
        *final(header) == with_nonce(*old(header), final(header).nonce),
        final(header).nonce >= old(header).nonce,
        forall|n: u64|
            old(header).nonce <= n < final(header).nonce ==> !accepted(
                spec_hash_header(with_nonce(*old(header), n)),
                old(header).difficulty as nat,
            ),
        (match r {
            Some(digest) => digest@ == spec_hash_header(*final(header)) && digest@.len() == 64
                && accepted(digest@, final(header).difficulty as nat),
            None => final(header).nonce == u64::MAX && !accepted(
                spec_hash_header(*final(header)),
                old(header).difficulty as nat,
            ),
        }),
        old(header).difficulty == 0 ==> r is Some,
{
    loop
        invariant
            *header == with_nonce(*old(header), header.nonce),
            header.nonce >= old(header).nonce,
            forall|n: u64|
                old(header).nonce <= n < header.nonce ==> !accepted(
                    spec_hash_header(with_nonce(*old(header), n)),
                    old(header).difficulty as nat,
                ),
        decreases u64::MAX - header.nonce,
    {
        let digest = hash_header(header);
        if meets_difficulty(digest.as_str(), header.difficulty) {
            return Some(digest);
        }
        if header.nonce == u64::MAX {
            return None;
        }
        header.nonce = header.nonce + 1;
    }
}

} // verus!
