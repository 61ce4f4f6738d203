//! The chain: an append-only list of mined blocks plus the pending pool.

use crate::merkle::get_merkle;
use crate::merkle::spec_merkle;
use crate::mining::accepted;
use crate::mining::no_nonce_works;
use crate::mining::proof_of_work;
use crate::mining::with_nonce;
use crate::record::Amount;
use crate::record::Block;
use crate::record::BlockHeader;
use crate::record::Transaction;
use crate::record::hash_header;
use crate::record::spec_hash_header;
use vstd::prelude::*;
use vstd::string::StringExecFns;

verus! {

/// Bit pattern of the default mining reward (the 32-bit IEEE value fifty).
pub const DEFAULT_REWARD_BITS: u32 = 0x4248_0000;

/// The 64-character all-zero digest standing in for the predecessor of the
/// first block.
pub open spec fn zero_sentinel() -> Seq<char> {
    Seq::new(64, |i: int| '0')
}

/// Builds the all-zero sentinel digest.
pub fn zero_hash_string() -> (s: String)
    ensures
        s@ == zero_sentinel(),
{
    let mut s = String::new();
    let mut i: usize = 0;
    while i < 64
        invariant
            i <= 64,
            s@ == Seq::new(i as nat, |j: int| '0'),
        decreases 64 - i,
    {
        s.append("0");
        i = i + 1;
        proof {
            reveal_strlit("0");
            assert(s@ =~= Seq::new(i as nat, |j: int| '0'));
        }
    }
    s
}

/// The fixed sender named on every reward transaction.
pub open spec fn root_address() -> Seq<char> {
    ("Root")@
}

/// Builds the fixed sender of reward transactions.
pub fn root_string() -> (s: String)
    ensures
        s@ == root_address(),
{
    "Root".to_owned()
}

/// Relies on chrono::Utc::now (through DateTime::timestamp): the clock
/// reading, as whole seconds since the epoch.  Nothing is assumed of it.
/// Caveat: chrono aborts when the system clock stands before the epoch, so
/// on such a machine this call panics.
#[verifier::external_body]
fn current_timestamp() -> i64 {
    chrono::Utc::now().timestamp()
}

/// The ledger: the blocks mined so far, the pool of pending transactions,
/// and the mining parameters.
pub struct Chain {
    /// The mined blocks, oldest first.
    pub chains: Vec<Block>,
    /// Transactions accepted but not yet committed into a block.
    pub current_transactions: Vec<Transaction>,
    /// Difficulty embedded into the next block's header.
    pub difficulty: u32,
    /// Where mining rewards are sent.
    pub miner_address: String,
    /// Amount of the reward transaction put into each new block.
    pub reward: Amount,
}

/// Digest of the last block's header, or the sentinel when no block exists.
pub open spec fn spec_last_hash(c: Chain) -> Seq<char> {
    if c.chains@.len() == 0 {
        zero_sentinel()
    } else {
        spec_hash_header(c.chains@.last().header)
    }
}

/// Integrity of one block within a chain: it holds at least its reward
/// transaction, its count matches, its Merkle commitment matches its own
/// transactions, it points at the digest of its predecessor's header (the
/// first block at the sentinel), and its header passed its own difficulty.
pub open spec fn wf_block_at(c: Chain, i: int) -> bool
    recommends
        0 <= i < c.chains@.len(),
{
    let b = c.chains@[i];
    &&& b.transactions@.len() >= 1
    &&& b.count as nat == b.transactions@.len()
    &&& b.header.merkle@ == spec_merkle(b.transactions@)
    &&& b.header.previous_hash@ == (if i == 0 {
        zero_sentinel()
    } else {
        spec_hash_header(c.chains@[i - 1].header)
    })
    &&& accepted(spec_hash_header(b.header), b.header.difficulty as nat)
}

/// Integrity of the whole chain.
pub open spec fn chain_wf(c: Chain) -> bool {
    forall|i: int| 0 <= i < c.chains@.len() ==> #[trigger] wf_block_at(c, i)
}

/// What a freshly mined block owes to the chain state it was built from.
pub open spec fn new_block_ok(prev: Chain, b: Block) -> bool {
    &&& b.transactions@.len() == prev.current_transactions@.len() + 1
    &&& b.transactions@[0].sender@ == root_address()
    &&& b.transactions@[0].receiver@ == prev.miner_address@
    &&& b.transactions@[0].amount == prev.reward
    &&& b.transactions@.subrange(1, b.transactions@.len() as int)
        == prev.current_transactions@
    &&& b.count as nat == b.transactions@.len()
    &&& b.header.previous_hash@ == spec_last_hash(prev)
    &&& b.header.difficulty == prev.difficulty
    &&& b.header.merkle@ == spec_merkle(b.transactions@)
    &&& accepted(spec_hash_header(b.header), prev.difficulty as nat)
}

impl Chain {
    /// Makes a chain and immediately mines its genesis block, whose
    /// predecessor digest is the all-zero sentinel.
    ///
    /// The chain starts at the supplied reward, or at the default when none
    /// is given.  An empty chain comes back only when the genesis search
    /// exhausted the whole nonce space without a hit; difficulty zero is
    /// accepted at once.
    pub fn new(miner_address: String, difficulty: u32, reward: Option<Amount>) -> (c: Chain)
        ensures
            c.difficulty == difficulty,
            c.miner_address@ == miner_address@,
            reward matches Some(a) ==> c.reward == a,
            reward is None ==> c.reward.bits == DEFAULT_REWARD_BITS,
            c.current_transactions@.len() == 0,
            c.chains@.len() <= 1,
            difficulty == 0 ==> c.chains@.len() == 1,
            chain_wf(c),
            c.chains@.len() == 0 ==> (exists|h: BlockHeader|
                (#[trigger] no_nonce_works(h, difficulty as nat)) && h.previous_hash@
                    == zero_sentinel() && h.difficulty == difficulty),
            c.chains@.len() == 1 ==> c.chains@[0].header.previous_hash@ == zero_sentinel(),
            c.chains@.len() == 1 ==> c.chains@[0].header.difficulty == difficulty,
            c.chains@.len() == 1 ==> c.chains@[0].transactions@.len() == 1,
            c.chains@.len() == 1 ==> c.chains@[0].transactions@[0].sender@ == root_address(),
            c.chains@.len() == 1 ==> c.chains@[0].transactions@[0].receiver@ == miner_address@,
            c.chains@.len() == 1 ==> c.chains@[0].transactions@[0].amount == c.reward,
    {
        let initial_reward = match reward {
            Some(a) => a,
            None => Amount { bits: DEFAULT_REWARD_BITS },
        };
        let mut c = Chain {
            chains: Vec::new(),
            current_transactions: Vec::new(),
            difficulty,
            miner_address,
            reward: initial_reward,
        };
        c.generate_new_block();
        c
    }

    /// Appends a transaction to the pending pool.  Nothing is validated:
    /// any sender, receiver and amount are taken at face value.
    pub fn add_transaction(&mut self, sender: String, receiver: String, amount: Amount) -> (r:
        bool)
        ensures
            r,
            final(self).current_transactions@ == old(self).current_transactions@.push(
                (Transaction { sender, receiver, amount }),
            ),
            final(self).chains == old(self).chains,
            final(self).difficulty == old(self).difficulty,
            final(self).miner_address == old(self).miner_address,
            final(self).reward == old(self).reward,
    {
        let transaction = Transaction { sender, receiver, amount };
        self.current_transactions.push(transaction);
        true
    }

    /// Digest of the last block's header, or the all-zero sentinel when the
    /// chain holds no block.
    pub fn last_hash(&self) -> (h: String)
        ensures
            h@ == spec_last_hash(*self),
            h@.len() == 64,
    {
        if self.chains.len() == 0 {
            zero_hash_string()
        } else {
            hash_header(&self.chains[self.chains.len() - 1].header)
        }
    }

    /// Replaces the difficulty; it takes effect with the next mined block.
    pub fn update_difficulty(&mut self, new_difficulty: u32) -> (r: bool)
        ensures
            r,
            final(self).difficulty == new_difficulty,
            final(self).chains == old(self).chains,
            final(self).current_transactions == old(self).current_transactions,
            final(self).miner_address == old(self).miner_address,
            final(self).reward == old(self).reward,
    {
        self.difficulty = new_difficulty;
        true
    }

    /// Replaces the reward; it takes effect with the next mined block.
    pub fn update_reward(&mut self, new_reward: Amount) -> (r: bool)
        ensures
            r,
            final(self).reward == new_reward,
            final(self).chains == old(self).chains,
            final(self).current_transactions == old(self).current_transactions,
            final(self).miner_address == old(self).miner_address,
            final(self).difficulty == old(self).difficulty,
    {
        self.reward = new_reward;
        true
    }

    /// Builds, mines and appends one block: a header pointing at the current
    /// last digest, a reward transaction followed by every pending
    /// transaction, the Merkle root over that list, then the proof-of-work
    /// search.  On success the pending pool is cleared.  `false` comes back
    /// only when the search exhausts the whole nonce space — then the chain
    /// is left exactly as it was.
    pub fn generate_new_block(&mut self) -> (r: bool)
        requires
            old(self).current_transactions@.len() + 1 <= u32::MAX,
        ensures
            final(self).difficulty == old(self).difficulty,
            final(self).miner_address == old(self).miner_address,
            final(self).reward == old(self).reward,
            r ==> final(self).current_transactions@.len() == 0,
            r ==> final(self).chains@.len() == old(self).chains@.len() + 1,
            r ==> final(self).chains@.subrange(0, old(self).chains@.len() as int) == old(
                self,
            ).chains@,
            r ==> new_block_ok(*old(self), final(self).chains@.last()),
            !r ==> *final(self) == *old(self),
            !r ==> (exists|h: BlockHeader|
                (#[trigger] no_nonce_works(h, old(self).difficulty as nat))
                    && h.previous_hash@ == spec_last_hash(*old(self)) && h.difficulty == old(
                    self,
                ).difficulty),
            old(self).difficulty == 0 ==> r,
            chain_wf(*old(self)) ==> chain_wf(*final(self)),
    {
        let prev_hash = self.last_hash();
        let timestamp = current_timestamp();
        let reward_transaction = Transaction {
            sender: root_string(),
            receiver: self.miner_address.clone(),
            amount: self.reward,
        };
        let ghost rt = reward_transaction;
        let mut txns: Vec<Transaction> = Vec::new();
        txns.push(reward_transaction);
        let mut i: usize = 0;
        while i < self.current_transactions.len()
            invariant
                *self == *old(self),
                i <= self.current_transactions@.len(),
                txns@ == seq![rt] + self.current_transactions@.subrange(0, i as int),
            decreases self.current_transactions@.len() - i,
        {
            let t = self.current_transactions[i].clone();
            txns.push(t);
            i = i + 1;
            proof {
                assert(txns@ =~= seq![rt] + self.current_transactions@.subrange(0, i as int));
            }
        }
        proof {
            assert(self.current_transactions@.subrange(
                0,
                self.current_transactions@.len() as int,
            ) =~= self.current_transactions@);
            assert(txns@.subrange(1, txns@.len() as int) =~= self.current_transactions@);
        }
        let merkle = get_merkle(&txns);
        let mut header = BlockHeader {
            timestamp,
            nonce: 0,
            previous_hash: prev_hash,
            merkle,
            difficulty: self.difficulty,
        };
        let ghost h0 = header;
        let mined = proof_of_work(&mut header);
        match mined {
            Some(_digest) => {
                let count = txns.len() as u32;
                let block = Block { header, count, transactions: txns };
                let ghost b = block;
                let ghost pre = *self;
                self.chains.push(block);
                self.current_transactions.clear();
                proof {
                    assert(self.chains@.subrange(0, pre.chains@.len() as int) =~= pre.chains@);
                    assert(new_block_ok(pre, b));
                    if chain_wf(pre) {
                        assert forall|k: int|
                            0 <= k < self.chains@.len() implies #[trigger] wf_block_at(
                            *self,
                            k,
                        ) by {
                            if k < self.chains@.len() - 1 {
                                assert(wf_block_at(pre, k));
                                assert(self.chains@[k] == pre.chains@[k]);
                                if k > 0 {
                                    assert(self.chains@[k - 1] == pre.chains@[k - 1]);
                                }
                            } else {
                                assert(self.chains@[k] == b);
                                if k > 0 {
                                    assert(self.chains@[k - 1] == pre.chains@[k - 1]);
                                    assert(b.header.previous_hash@ == spec_hash_header(
                                        pre.chains@.last().header,
                                    ));
                                }
                            }
                        }
                    }
                }
                true
            },
            None => {
                proof {
                    assert forall|n: u64|
                        !accepted(
                            spec_hash_header(with_nonce(h0, n)),
                            h0.difficulty as nat,
                        ) by {
                        if n == u64::MAX {
                            assert(with_nonce(h0, n) == header);
                        }
                    }
                    assert(no_nonce_works(h0, old(self).difficulty as nat));
                }
                false
            },
        }
    }

    /// The current difficulty.
    pub fn get_difficulty(&self) -> (d: u32)
        ensures
            d == self.difficulty,
    {
        self.difficulty
    }

    /// The current reward.
    pub fn get_reward(&self) -> (a: Amount)
        ensures
            a == self.reward,
    {
        self.reward
    }

    /// The blocks mined so far.
    pub fn get_chain(&self) -> (b: &Vec<Block>)
        ensures
            b == &self.chains,
    {
        &self.chains
    }
}

} // verus!
