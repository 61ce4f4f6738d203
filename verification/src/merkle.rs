//! Merkle-root computation over a transaction list.

use crate::hashing::hash_str;
use crate::hashing::spec_hash_str;
use crate::record::Transaction;
use crate::record::hash_transaction;
use crate::record::spec_hash_transaction;
use vstd::prelude::*;
use vstd::string::StringExecFns;

verus! {

/// The views of a list of digest strings.
pub open spec fn views_of(l: Seq<String>) -> Seq<Seq<char>> {
    l.map_values(|s: String| s@)
}

/// One digest per transaction, in order.
pub open spec fn merkle_leaves(txs: Seq<Transaction>) -> Seq<Seq<char>> {
    txs.map_values(|t: Transaction| spec_hash_transaction(t))
}

/// The last leaf is doubled when the count is odd, so that pairing always
/// works out.
pub open spec fn pad_leaves(l: Seq<Seq<char>>) -> Seq<Seq<char>> {
    if l.len() % 2 == 1 {
        l.push(l.last())
    } else {
        l
    }
}

/// Pairwise reduction: the two front leaves leave the list, the digest of
/// their concatenation joins at the back, until one value remains.
pub open spec fn merkle_reduce(l: Seq<Seq<char>>) -> Seq<char>
    decreases l.len(),
{
    if l.len() == 0 {
        Seq::empty()
    } else if l.len() == 1 {
        l[0]
    } else {
        merkle_reduce(l.subrange(2, l.len() as int).push(spec_hash_str(l[0] + l[1])))
    }
}

/// The Merkle root of a transaction list.
pub open spec fn spec_merkle(txs: Seq<Transaction>) -> Seq<char> {
    merkle_reduce(pad_leaves(merkle_leaves(txs)))
}

/// Computes the Merkle root of a non-empty transaction list: hash every
/// transaction in order, double the last leaf when the count is odd, then
/// reduce pairwise from the front until one digest remains.
pub fn get_merkle(transactions: &Vec<Transaction>) -> (root: String)
    requires
        transactions@.len() >= 1,
    ensures
        root@ == spec_merkle(transactions@),
        root@.len() == 64,
{
    let mut leaves: Vec<String> = Vec::new();
    let mut i: usize = 0;
    while i < transactions.len()
        invariant
            i <= transactions@.len(),
            views_of(leaves@) == merkle_leaves(transactions@.subrange(0, i as int)),
            forall|j: int| 0 <= j < leaves@.len() ==> (#[trigger] leaves@[j])@.len() == 64,
        decreases transactions@.len() - i,
    {
        let ghost pre = leaves@;
        let h = hash_transaction(&transactions[i]);
        leaves.push(h);
        i = i + 1;
        proof {
            let target = merkle_leaves(transactions@.subrange(0, i as int));
            assert(views_of(pre).len() == pre.len());
            assert(merkle_leaves(transactions@.subrange(0, i - 1)).len() == i - 1);
            assert(pre.len() == i - 1);
            assert(target.len() == i);
            assert(views_of(leaves@).len() == leaves@.len());
            assert forall|j: int| 0 <= j < leaves@.len() implies views_of(leaves@)[j]
                == target[j] by {
                assert(transactions@.subrange(0, i as int)[j] == transactions@[j]);
                if j < pre.len() {
                    assert(views_of(pre)[j] == pre[j]@);
                    assert(transactions@.subrange(0, i - 1)[j] == transactions@[j]);
                }
            }
            assert(views_of(leaves@) =~= target);
        }
    }
    proof {
        assert(transactions@.subrange(0, transactions@.len() as int) =~= transactions@);
    }
    if leaves.len() % 2 == 1 {
        let ghost pre = leaves@;
        let last = leaves[leaves.len() - 1].clone();
        leaves.push(last);
        proof {
            let target = pad_leaves(merkle_leaves(transactions@));
            assert(views_of(pre).len() == pre.len());
            assert(merkle_leaves(transactions@).len() == transactions@.len());
            assert(target.len() == leaves@.len());
            assert(views_of(leaves@).len() == leaves@.len());
            assert forall|j: int| 0 <= j < leaves@.len() implies views_of(leaves@)[j]
                == target[j] by {
                if j < pre.len() {
                    assert(views_of(pre)[j] == pre[j]@);
                }
            }
            assert(views_of(leaves@) =~= target);
        }
    }
    while leaves.len() > 1
        invariant
            leaves@.len() >= 1,
            merkle_reduce(views_of(leaves@)) == spec_merkle(transactions@),
            forall|j: int| 0 <= j < leaves@.len() ==> (#[trigger] leaves@[j])@.len() == 64,
        decreases leaves@.len(),
    {
        let ghost entry = leaves@;
        let ghost before = views_of(leaves@);
        let h1 = leaves.remove(0);
        let h2 = leaves.remove(0);
        let combined = h1.concat(h2.as_str());
        let hn = hash_str(combined.as_str());
        leaves.push(hn);
        proof {
            assert(views_of(entry).len() == entry.len());
            assert(views_of(leaves@).len() == leaves@.len());
            assert(h1 == entry[0]);
            assert(entry.remove(0)[0] == entry[1]);
            assert(entry.remove(0).remove(0) =~= entry.subrange(2, entry.len() as int));
            assert(leaves@ =~= entry.subrange(2, entry.len() as int).push(hn));
            let target = before.subrange(2, before.len() as int).push(
                spec_hash_str(before[0] + before[1]),
            );
            assert(hn@ == spec_hash_str(before[0] + before[1]));
            assert forall|j: int| 0 <= j < leaves@.len() implies views_of(leaves@)[j]
                == target[j] by {
                if j < leaves@.len() - 1 {
                    assert(leaves@[j] == entry[j + 2]);
                    assert(target[j] == before[j + 2]);
                    assert(before[j + 2] == entry[j + 2]@);
                }
            }
            assert(views_of(leaves@) =~= target);
            assert(merkle_reduce(before) == merkle_reduce(target));
        }
    }
    let root = leaves.remove(0);
    root
}

} // verus!
