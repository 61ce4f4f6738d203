//! The data model: amounts, transactions, block headers and blocks, with
//! their canonical serialization and digests.

use crate::digits::dec_i64;
use crate::digits::dec_of;
use crate::digits::dec_of_int;
use crate::digits::dec_u64;
use crate::digits::dec_usize;
use crate::hashing::hash_str;
use crate::hashing::spec_hash_str;
use vstd::prelude::*;
use vstd::string::StrSliceExecFns;
use vstd::string::StringExecFns;

verus! {

/// An asset amount.  The ledger never computes with amounts — it stores
/// them, serializes them and hands them back — so an amount is carried as
/// the raw bit pattern of the caller's 32-bit value.
#[derive(Clone, Copy, PartialEq, Eq, Structural, Debug)]
pub struct Amount {
    pub bits: u32,
}

impl Amount {
    pub fn from_bits(bits: u32) -> (a: Amount)
        ensures
            a.bits == bits,
    {
        Amount { bits }
    }

    pub fn to_bits(&self) -> (b: u32)
        ensures
            b == self.bits,
    {
        self.bits
    }
}

/// A transfer of an amount from a sender to a receiver.
#[derive(Debug)]
pub struct Transaction {
    pub sender: String,
    pub receiver: String,
    pub amount: Amount,
}

impl Clone for Transaction {
    fn clone(&self) -> (t: Transaction)
        ensures
            t == *self,
    {
        Transaction {
            sender: self.sender.clone(),
            receiver: self.receiver.clone(),
            amount: self.amount,
        }
    }
}

/// Header of a block: what the proof-of-work search runs over.
#[derive(Debug)]
pub struct BlockHeader {
    /// Seconds since the epoch when the block was created.
    pub timestamp: i64,
    /// Counter the proof-of-work search runs through.
    pub nonce: u64,
    /// Digest of the previous block's header (or the all-zero sentinel).
    pub previous_hash: String,
    /// Merkle root of the block's transactions.
    pub merkle: String,
    /// How many leading zero characters the header's digest must show.
    pub difficulty: u32,
}

impl BlockHeader {
    /// The nonce the search settled on.
    pub fn get_nonce(&self) -> (n: u64)
        ensures
            n == self.nonce,
    {
        self.nonce
    }

    /// The digest of the previous block's header.
    pub fn get_previous_hash(&self) -> (h: String)
        ensures
            h@ == self.previous_hash@,
    {
        self.previous_hash.clone()
    }
}

/// A block: a header plus the transactions it commits to.
#[derive(Debug)]
pub struct Block {
    pub header: BlockHeader,
    /// How many transactions the block holds.
    pub count: u32,
    pub transactions: Vec<Transaction>,
}

impl Block {
    pub fn get_header(&self) -> (h: &BlockHeader)
        ensures
            h == &self.header,
    {
        &self.header
    }

    pub fn get_transactions(&self) -> (t: &Vec<Transaction>)
        ensures
            t == &self.transactions,
    {
        &self.transactions
    }
}

/// Canonical text of a transaction, fed to the digest: a tag, each string
/// field length-prefixed (so the text is unambiguous), then the amount bits.
pub open spec fn spec_serial_transaction(t: Transaction) -> Seq<char> {
    ("t,")@ + dec_of(t.sender@.len()) + (":")@ + t.sender@ + (",")@ + dec_of(t.receiver@.len())
        + (":")@ + t.receiver@ + (",")@ + dec_of(t.amount.bits as nat)
}

/// Canonical text of a header, fed to the digest.
pub open spec fn spec_serial_header(h: BlockHeader) -> Seq<char> {
    ("h,")@ + dec_of_int(h.timestamp as int) + (",")@ + dec_of(h.nonce as nat) + (",")@ + dec_of(
        h.previous_hash@.len(),
    ) + (":")@ + h.previous_hash@ + (",")@ + dec_of(h.merkle@.len()) + (":")@ + h.merkle@ + (",")@
        + dec_of(h.difficulty as nat)
}

/// Digest of a transaction's canonical text.
pub open spec fn spec_hash_transaction(t: Transaction) -> Seq<char> {
    spec_hash_str(spec_serial_transaction(t))
}

/// Digest of a header's canonical text.
pub open spec fn spec_hash_header(h: BlockHeader) -> Seq<char> {
    spec_hash_str(spec_serial_header(h))
}

/// Builds the canonical text of a transaction.
pub fn serialize_transaction(t: &Transaction) -> (s: String)
    ensures
        s@ == spec_serial_transaction(*t),
{
    let mut s = String::new();
    s.append("t,");
    let n1 = dec_usize(t.sender.as_str().unicode_len());
    s.append(n1.as_str());
    s.append(":");
    s.append(t.sender.as_str());
    s.append(",");
    let n2 = dec_usize(t.receiver.as_str().unicode_len());
    s.append(n2.as_str());
    s.append(":");
    s.append(t.receiver.as_str());
    s.append(",");
    let n3 = dec_u64(t.amount.bits as u64);
    s.append(n3.as_str());
    proof {
        assert(s@ =~= spec_serial_transaction(*t));
    }
    s
}

/// Builds the canonical text of a header.
pub fn serialize_header(h: &BlockHeader) -> (s: String)
    ensures
        s@ == spec_serial_header(*h),
{
    let mut s = String::new();
    s.append("h,");
    let ts = dec_i64(h.timestamp);
    s.append(ts.as_str());
    s.append(",");
    let nonce = dec_u64(h.nonce);
    s.append(nonce.as_str());
    s.append(",");
    let n1 = dec_usize(h.previous_hash.as_str().unicode_len());
    s.append(n1.as_str());
    s.append(":");
    s.append(h.previous_hash.as_str());
    s.append(",");
    let n2 = dec_usize(h.merkle.as_str().unicode_len());
    s.append(n2.as_str());
    s.append(":");
    s.append(h.merkle.as_str());
    s.append(",");
    let d = dec_u64(h.difficulty as u64);
    s.append(d.as_str());
    proof {
        assert(s@ =~= spec_serial_header(*h));
    }
    s
}

/// Digest of a transaction, as 64 lowercase base-16 characters.
pub fn hash_transaction(t: &Transaction) -> (r: String)
    ensures
        r@ == spec_hash_transaction(*t),
        r@.len() == 64,
{
    let s = serialize_transaction(t);
    hash_str(s.as_str())
}

/// Digest of a header, as 64 lowercase base-16 characters.
pub fn hash_header(h: &BlockHeader) -> (r: String)
    ensures
        r@ == spec_hash_header(*h),
        r@.len() == 64,
{
    let s = serialize_header(h);
    hash_str(s.as_str())
}

} // verus!
