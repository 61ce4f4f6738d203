//! An in-process, append-only ledger of proof-of-work blocks.
//!
//! A [`chain::Chain`] owns an ordered list of blocks and a pool of pending
//! transactions.  Each block commits to its transaction list through a Merkle
//! root, points at the digest of its predecessor's header, and carries a nonce
//! found by a proof-of-work search against a difficulty target.

pub mod chain;
pub mod digits;
pub mod export;
pub mod hashing;
pub mod merkle;
pub mod mining;
pub mod record;

pub use chain::Chain;
pub use chain::zero_hash_string;
pub use export::export_block;
pub use hashing::hash_str;
pub use hashing::hex_to_string;
pub use merkle::get_merkle;
pub use mining::meets_difficulty;
pub use mining::proof_of_work;
pub use record::Amount;
pub use record::Block;
pub use record::BlockHeader;
pub use record::Transaction;
pub use record::hash_header;
pub use record::hash_transaction;
