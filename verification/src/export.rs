//! Single-line JSON-style rendering of blocks and of the whole chain.
//!
//! The field layout is this library's own: a header object, the transaction
//! count, and the ordered transaction list.  String fields are embedded as
//! they are, and an amount shows its raw bit pattern.

use crate::chain::Chain;
use crate::digits::dec_of;
use crate::digits::dec_of_int;
use crate::digits::dec_u64;
use crate::digits::dec_i64;
use crate::record::Block;
use crate::record::BlockHeader;
use crate::record::Transaction;
use vstd::prelude::*;
use vstd::string::StringExecFns;

verus! {

/// The rendering of one transaction.
pub open spec fn spec_export_transaction(t: Transaction) -> Seq<char> {
    ("{\"sender\":\"")@ + t.sender@ + ("\",\"receiver\":\"")@ + t.receiver@
        + ("\",\"amount_bits\":")@ + dec_of(t.amount.bits as nat) + ("}")@
}

/// The rendering of a transaction list, comma-separated.
pub open spec fn spec_export_txn_list(txs: Seq<Transaction>) -> Seq<char>
    decreases txs.len(),
{
    if txs.len() == 0 {
        Seq::empty()
    } else if txs.len() == 1 {
        spec_export_transaction(txs[0])
    } else {
        spec_export_txn_list(txs.drop_last()) + (",")@ + spec_export_transaction(txs.last())
    }
}

/// The rendering of a header.
pub open spec fn spec_export_header(h: BlockHeader) -> Seq<char> {
    ("{\"timestamp\":")@ + dec_of_int(h.timestamp as int) + (",\"nonce\":")@ + dec_of(
        h.nonce as nat,
    ) + (",\"previous_hash\":\"")@ + h.previous_hash@ + ("\",\"merkle\":\"")@ + h.merkle@ + (
    "\",\"difficulty\":")@ + dec_of(h.difficulty as nat) + ("}")@
}

/// The rendering of a whole block.
pub open spec fn spec_export_block(b: Block) -> Seq<char> {
    ("{\"header\":")@ + spec_export_header(b.header) + (",\"count\":")@ + dec_of(b.count as nat)
        + (",\"transactions\":[")@ + spec_export_txn_list(b.transactions@) + ("]}")@
}

/// Renders one transaction.
pub fn export_transaction(t: &Transaction) -> (s: String)
    ensures
        s@ == spec_export_transaction(*t),
{
    let mut s = String::new();
    s.append("{\"sender\":\"");
    s.append(t.sender.as_str());
    s.append("\",\"receiver\":\"");
    s.append(t.receiver.as_str());
    s.append("\",\"amount_bits\":");
    let a = dec_u64(t.amount.bits as u64);
    s.append(a.as_str());
    s.append("}");
    proof {
        assert(s@ =~= spec_export_transaction(*t));
    }
    s
}

/// Renders a header.
pub fn export_header(h: &BlockHeader) -> (s: String)
    ensures
        s@ == spec_export_header(*h),
{
    let mut s = String::new();
    s.append("{\"timestamp\":");
    let ts = dec_i64(h.timestamp);
    s.append(ts.as_str());
    s.append(",\"nonce\":");
    let n = dec_u64(h.nonce);
    s.append(n.as_str());
    s.append(",\"previous_hash\":\"");
    s.append(h.previous_hash.as_str());
    s.append("\",\"merkle\":\"");
    s.append(h.merkle.as_str());
    s.append("\",\"difficulty\":");
    let d = dec_u64(h.difficulty as u64);
    s.append(d.as_str());
    s.append("}");
    proof {
        assert(s@ =~= spec_export_header(*h));
    }
    s
}

/// Renders a whole block.
pub fn export_block(b: &Block) -> (s: String)
    ensures
        s@ == spec_export_block(*b),
{
    let mut s = String::new();
    s.append("{\"header\":");
    let h = export_header(&b.header);
    s.append(h.as_str());
    s.append(",\"count\":");
    let c = dec_u64(b.count as u64);
    s.append(c.as_str());
    s.append(",\"transactions\":[");
    let ghost prefix = s@;
    let mut i: usize = 0;
    while i < b.transactions.len()
        invariant
            i <= b.transactions@.len(),
            s@ == prefix + spec_export_txn_list(b.transactions@.subrange(0, i as int)),
        decreases b.transactions@.len() - i,
    {
        if i > 0 {
            s.append(",");
        }
        let e = export_transaction(&b.transactions[i]);
        s.append(e.as_str());
        i = i + 1;
        proof {
            assert(b.transactions@.subrange(0, i as int).drop_last() =~= b.transactions@.subrange(
                0,
                i - 1,
            ));
            assert(b.transactions@.subrange(0, i as int).last() == b.transactions@[i - 1]);
            assert(s@ =~= prefix + spec_export_txn_list(b.transactions@.subrange(0, i as int)));
        }
    }
    s.append("]}");
    proof {
        assert(b.transactions@.subrange(0, b.transactions@.len() as int) =~= b.transactions@);
        assert(s@ =~= spec_export_block(*b));
    }
    s
}

impl Chain {
    /// Renders the latest block, or signals its absence on a chain that
    /// holds no block at all.
    pub fn get_latest_block_json(&self) -> (r: Option<String>)
        ensures
            (r is Some) <==> self.chains@.len() > 0,
            r matches Some(s) ==> s@ == spec_export_block(self.chains@.last()),
    {
        if self.chains.len() == 0 {
            None
        } else {
            Some(export_block(&self.chains[self.chains.len() - 1]))
        }
    }

    /// Renders every block, oldest first.
    pub fn get_blocks_json(&self) -> (r: Vec<String>)
        ensures
            r@.len() == self.chains@.len(),
            forall|i: int|
                0 <= i < r@.len() ==> (#[trigger] r@[i])@ == spec_export_block(self.chains@[i]),
    {
        let mut out: Vec<String> = Vec::new();
        let mut i: usize = 0;
        while i < self.chains.len()
            invariant
                i <= self.chains@.len(),
                out@.len() == i,
                forall|j: int|
                    0 <= j < i ==> (#[trigger] out@[j])@ == spec_export_block(self.chains@[j]),
            decreases self.chains@.len() - i,
        {
            let e = export_block(&self.chains[i]);
            out.push(e);
            i = i + 1;
        }
        out
    }
}

} // verus!
