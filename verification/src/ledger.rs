//! The ledger: one canonical chain of sealed blocks plus the pending
//! transaction pool.
//!
//! The chain always starts at the genesis block and every later block links
//! to its predecessor's hash. Sealing drains the whole pending pool into a
//! new block atomically. Validation never mutates and never fails: it walks
//! the chain re-deriving every hash and Merkle root and reports the first
//! failing block together with the first check it failed, so distinct
//! tampering modes stay distinguishable.

use vstd::prelude::*;

use crate::block::{
    block_hash_of, block_wf, merkle_root_field, no_nonce_seals, Block, BlockView,
};
use crate::errors::TrustFabricError;
use crate::transaction::{clone_transactions, Transaction, TxView};
use crate::DIFFICULTY;

verus! {

/// Which of the three integrity checks a block failed.
#[derive(Clone, Copy, Debug, PartialEq, Eq, Structural)]
pub enum ChainFault {
    /// The stored hash is not the hash of the block's own header fields.
    BlockHash,
    /// The stored previous-hash differs from the prior block's stored hash.
    Linkage,
    /// The stored Merkle root is not the root of the block's transactions.
    MerkleRoot,
}

/// The outcome of validating a chain: fully consistent, or the first
/// failing block with the first check it failed.
#[derive(Clone, Copy, Debug, PartialEq, Eq, Structural)]
pub enum ValidationReport {
    /// Every block after genesis passed all three checks.
    Consistent,
    /// The block at `index` failed `fault`, and every earlier block passed.
    Tampered { index: usize, fault: ChainFault },
}

/// The first of the three checks that the block at position `i` fails, if
/// any: the linkage to its predecessor, then its own hash, then its Merkle
/// root. Linkage comes first so that a corrupted previous-hash — which also
/// perturbs the block's own hash — is reported as the broken link it is.
pub open spec fn block_fault(chain: Seq<BlockView>, i: int) -> Option<ChainFault>
    recommends
        1 <= i < chain.len(),
{
    if chain[i].previous_hash != chain[i - 1].hash {
        Some(ChainFault::Linkage)
    } else if chain[i].hash != block_hash_of(chain[i]) {
        Some(ChainFault::BlockHash)
    } else if chain[i].merkle_root != merkle_root_field(chain[i].transactions) {
        Some(ChainFault::MerkleRoot)
    } else {
        None
    }
}

/// The report for the chain from position `i` on: the first failing block at
/// or after `i`, or consistency if none fails.
pub open spec fn first_fault_from(chain: Seq<BlockView>, i: int) -> ValidationReport
    decreases chain.len() - i,
{
    if i < 1 || i >= chain.len() {
        ValidationReport::Consistent
    } else {
        match block_fault(chain, i) {
            Some(fault) => ValidationReport::Tampered { index: i as usize, fault },
            None => first_fault_from(chain, i + 1),
        }
    }
}

/// The validation verdict of a whole chain: every block after genesis is
/// re-derived and checked in order.
pub open spec fn validation_of(chain: Seq<BlockView>) -> ValidationReport {
    first_fault_from(chain, 1)
}

/// A well-formed chain: non-empty, rooted at the genesis sentinel, indices
/// counting up from zero, every block sealed over its own content, and every
/// block after genesis linked to its predecessor's hash.
pub open spec fn chain_wf(chain: Seq<BlockView>, difficulty: nat) -> bool {
    &&& chain.len() >= 1
    &&& chain[0].index == 0
    &&& chain[0].previous_hash == seq!['0']
    &&& chain[0].transactions.len() == 0
    &&& forall|i: int| 0 <= i < chain.len() ==> block_wf(#[trigger] chain[i], difficulty)
    &&& forall|i: int| 0 <= i < chain.len() ==> (#[trigger] chain[i]).index == i as u64
    &&& forall|i: int| 1 <= i < chain.len() ==> (#[trigger] chain[i]).previous_hash == chain[
        i - 1
    ].hash
}

/// Appending a freshly sealed block that takes the next index and links to
/// the last block's hash keeps a chain well formed.
pub proof fn lemma_chain_wf_push(chain: Seq<BlockView>, b: BlockView, difficulty: nat)
    requires
        chain_wf(chain, difficulty),
        chain.len() <= u64::MAX,
        block_wf(b, difficulty),
        b.index == chain.last().index + 1,
        b.previous_hash == chain.last().hash,
    ensures
        chain_wf(chain.push(b), difficulty),
{
    let nc = chain.push(b);
    assert(chain.last() == chain[chain.len() - 1]);
    assert(chain.last().index == chain.len() - 1);
    assert forall|i: int| 0 <= i < nc.len() implies block_wf(#[trigger] nc[i], difficulty) by {
        if i < chain.len() {
            assert(nc[i] == chain[i]);
        } else {
            assert(nc[i] == b);
        }
    }
    assert forall|i: int| 0 <= i < nc.len() implies (#[trigger] nc[i]).index == i as u64 by {
        if i < chain.len() {
            assert(nc[i] == chain[i]);
        } else {
            assert(nc[i] == b);
        }
    }
    assert forall|i: int| 1 <= i < nc.len() implies (#[trigger] nc[i]).previous_hash == nc[
        i - 1
    ].hash by {
        if i < chain.len() {
            assert(nc[i] == chain[i]);
            assert(nc[i - 1] == chain[i - 1]);
        } else {
            assert(nc[i] == b);
            assert(nc[i - 1] == chain.last());
        }
    }
}

/// A well-formed chain validates as fully consistent.
pub proof fn lemma_wf_chain_validates(chain: Seq<BlockView>, difficulty: nat)
    requires
        chain_wf(chain, difficulty),
    ensures
        validation_of(chain) is Consistent,
{
    lemma_wf_chain_validates_from(chain, difficulty, 1);
}

proof fn lemma_wf_chain_validates_from(chain: Seq<BlockView>, difficulty: nat, i: int)
    requires
        chain_wf(chain, difficulty),
        1 <= i,
    ensures
        first_fault_from(chain, i) is Consistent,
    decreases chain.len() - i,
{
    if i < chain.len() {
        assert(block_wf(chain[i], difficulty));
        assert(block_fault(chain, i) is None);
        lemma_wf_chain_validates_from(chain, difficulty, i + 1);
    }
}

/// The mathematical content of a ledger: the chain and the pending pool.
pub ghost struct LedgerView {
    pub chain: Seq<BlockView>,
    pub pending: Seq<TxView>,
}

/// The ledger: the canonical chain and the pool of transactions awaiting
/// inclusion in the next sealed block.
#[derive(Debug)]
pub struct Blockchain {
    pub chain: Vec<Block>,
    pub pending_transactions: Vec<Transaction>,
}

impl View for Blockchain {
    type V = LedgerView;

    open spec fn view(&self) -> LedgerView {
        LedgerView {
            chain: self.chain.deep_view(),
            pending: self.pending_transactions.deep_view(),
        }
    }
}

impl Blockchain {
    /// The ledger invariant: the chain is well formed at the ledger
    /// difficulty. Constructors establish it and sealing preserves it; only
    /// external tampering with the public fields breaks it, which is exactly
    /// what validation detects.
    pub open spec fn wf(&self) -> bool {
        chain_wf(self@.chain, DIFFICULTY as nat)
    }

    /// Builds a ledger holding only the sealed genesis block, with an empty
    /// pending pool. Fails only if the proof-of-work search exhausts every
    /// nonce on the genesis header.
    pub fn new() -> (r: Result<Blockchain, TrustFabricError>)
        ensures
            match r {
                Ok(ledger) => {
                    &&& ledger@.chain.len() == 1
                    &&& ledger@.chain[0].index == 0
                    &&& ledger@.chain[0].previous_hash == seq!['0']
                    &&& ledger@.chain[0].transactions.len() == 0
                    &&& ledger@.pending.len() == 0
                    &&& ledger.wf()
                },
                Err(e) => e is SealTimeout && (exists|t: i64|
                    no_nonce_seals(0, t, seq!['0'], Seq::empty(), DIFFICULTY as nat)),
            },
    {
        let genesis = match Block::new_genesis() {
            Ok(g) => g,
            Err(e) => {
                return Err(e);
            },
        };
        let mut chain: Vec<Block> = Vec::new();
        let ghost genesis_view = genesis@;
        chain.push(genesis);
        let ledger = Blockchain { chain, pending_transactions: Vec::new() };
        proof {
            assert(ledger@.chain =~= seq![genesis_view]);
            assert(ledger@.pending =~= Seq::<TxView>::empty());
        }
        Ok(ledger)
    }

    /// The most recent block of the chain.
    pub fn get_last_block(&self) -> (r: &Block)
        requires
            self@.chain.len() > 0,
        ensures
            r@ == self@.chain.last(),
    {
        let last = self.chain.len() - 1;
        let block = &self.chain[last];
        proof {
            assert(block@ == self@.chain[last as int]);
        }
        block
    }

    /// The transactions awaiting inclusion in the next sealed block, in
    /// arrival order.
    pub fn get_pending_transactions(&self) -> (r: &Vec<Transaction>)
        ensures
            r.deep_view() == self@.pending,
    {
        &self.pending_transactions
    }

    /// Appends a transaction to the pending pool. Pool intake performs no
    /// signature check: callers validate beforehand via
    /// `Transaction::is_valid`, or defer to chain validation after sealing.
    pub fn add_transaction(&mut self, transaction: Transaction)
        ensures
            final(self)@.chain == old(self)@.chain,
            final(self)@.pending == old(self)@.pending.push(transaction@),
    {
        let ghost pre = self.pending_transactions.deep_view();
        let ghost tx_view = transaction@;
        self.pending_transactions.push(transaction);
        proof {
            assert forall|k: int|
                0 <= k < pre.len() implies self.pending_transactions.deep_view()[k] == pre[k] by {
                assert(self.pending_transactions@[k] == self.pending_transactions@.subrange(
                    0,
                    pre.len() as int,
                )[k]);
            }
            assert(self.pending_transactions.deep_view()[pre.len() as int] == tx_view);
            assert(final(self)@.pending =~= old(self)@.pending.push(tx_view));
        }
    }

    /// Seals the pending pool into a new block and appends it: the new block
    /// takes the next index, links to the last block's hash, and carries the
    /// whole pool in arrival order; the pool is then emptied. Fails with
    /// `NoPendingTransactions`, changing nothing, exactly when the pool is
    /// empty; `SealTimeout` (never seen at a realistic difficulty) also
    /// changes nothing.
    #[verifier::rlimit(50)]
    pub fn mine_and_add_block(&mut self) -> (r: Result<Block, TrustFabricError>)
        requires
            old(self)@.chain.len() > 0,
            old(self)@.chain.last().index < u64::MAX,
        ensures
            r is Err ==> final(self)@ == old(self)@,
            r is Err ==> (r->Err_0 is NoPendingTransactions <==> old(self)@.pending.len() == 0),
            r is Err ==> (r->Err_0 is NoPendingTransactions || r->Err_0 is SealTimeout),
            r is Err && r->Err_0 is SealTimeout ==> ({
                let next_index = (old(self)@.chain.last().index + 1) as u64;
                exists|t: i64|
                    #[trigger] no_nonce_seals(
                        next_index,
                        t,
                        old(self)@.chain.last().hash,
                        merkle_root_field(old(self)@.pending),
                        DIFFICULTY as nat,
                    )
            }),
            r is Ok ==> ({
                let b = r->Ok_0@;
                &&& old(self)@.pending.len() > 0
                &&& b.index == old(self)@.chain.last().index + 1
                &&& b.previous_hash == old(self)@.chain.last().hash
                &&& b.transactions == old(self)@.pending
                &&& block_wf(b, DIFFICULTY as nat)
                &&& final(self)@.chain == old(self)@.chain.push(b)
                &&& final(self)@.pending.len() == 0
            }),
            old(self).wf() && r is Ok ==> final(self).wf(),
    {
        if self.pending_transactions.is_empty() {
            return Err(TrustFabricError::NoPendingTransactions);
        }
        let chain_len = self.chain.len();
        let last = &self.chain[chain_len - 1];
        proof {
            assert(last@ == old(self)@.chain.last());
        }
        let next_index = last.index + 1;
        let previous_hash = last.hash.clone();
        let ghost prev_chars = previous_hash@;
        let drained = clone_transactions(&self.pending_transactions);
        let ghost drained_views = drained.deep_view();
        let block = match Block::new(next_index, previous_hash, drained) {
            Ok(b) => b,
            Err(e) => {
                proof {
                    let witness = choose|t: i64|
                        no_nonce_seals(
                            next_index,
                            t,
                            prev_chars,
                            merkle_root_field(drained_views),
                            DIFFICULTY as nat,
                        );
                    assert(no_nonce_seals(
                        ((old(self)@.chain.last().index + 1) as u64),
                        witness,
                        old(self)@.chain.last().hash,
                        merkle_root_field(old(self)@.pending),
                        DIFFICULTY as nat,
                    ));
                }
                return Err(e);
            },
        };
        self.pending_transactions = Vec::new();
        let appended = block.clone();
        let ghost pre_chain = self.chain.deep_view();
        let ghost block_view = block@;
        self.chain.push(appended);
        proof {
            assert forall|k: int|
                0 <= k < pre_chain.len() implies self.chain.deep_view()[k] == pre_chain[k] by {
                assert(self.chain@[k] == self.chain@.subrange(0, pre_chain.len() as int)[k]);
            }
            assert(self.chain.deep_view()[pre_chain.len() as int] == block_view);
            assert(final(self)@.chain =~= old(self)@.chain.push(block_view));
            assert(final(self)@.pending =~= Seq::<TxView>::empty());
            if old(self).wf() {
                lemma_chain_wf_push(old(self)@.chain, block_view, DIFFICULTY as nat);
            }
        }
        Ok(block)
    }

    /// Validates the whole chain without mutating it, as `validation_of`
    /// describes: for each block after genesis, in order, its previous-hash
    /// is checked against the prior block's stored hash, its stored hash
    /// against its recomputed hash, and its stored Merkle root against the
    /// root recomputed from its transactions; the first failure is reported.
    pub fn validate(&self) -> (r: ValidationReport)
        ensures
            r == validation_of(self@.chain),
    {
        let ghost chain = self@.chain;
        let mut i: usize = 1;
        while i < self.chain.len()
            invariant
                1 <= i,
                chain == self@.chain,
                chain.len() == self.chain@.len(),
                validation_of(chain) == first_fault_from(chain, i as int),
            decreases self.chain@.len() - i,
        {
            proof {
                assert(self.chain.deep_view()[i as int] == self.chain@[i as int]@);
                assert(self.chain.deep_view()[i - 1] == self.chain@[i - 1]@);
            }
            let current = &self.chain[i];
            let previous = &self.chain[i - 1];
            if !(current.previous_hash == previous.hash) {
                proof {
                    assert(block_fault(chain, i as int) == Some(ChainFault::Linkage));
                }
                return ValidationReport::Tampered { index: i, fault: ChainFault::Linkage };
            }
            let recomputed = current.calculate_hash();
            if !(current.hash == recomputed) {
                proof {
                    assert(block_fault(chain, i as int) == Some(ChainFault::BlockHash));
                }
                return ValidationReport::Tampered { index: i, fault: ChainFault::BlockHash };
            }
            let root_matches = match Block::calculate_merkle_root(&current.transactions) {
                Some(root) => current.merkle_root == root,
                None => current.merkle_root.as_str().is_empty(),
            };
            proof {
                if chain[i as int].transactions.len() == 0 {
                    if chain[i as int].merkle_root.len() == 0 {
                        assert(chain[i as int].merkle_root =~= Seq::<char>::empty());
                    }
                    assert(root_matches <==> chain[i as int].merkle_root == merkle_root_field(
                        chain[i as int].transactions,
                    ));
                }
            }
            if !root_matches {
                proof {
                    assert(chain[i as int].merkle_root != merkle_root_field(
                        chain[i as int].transactions,
                    ));
                    assert(block_fault(chain, i as int) == Some(ChainFault::MerkleRoot));
                }
                return ValidationReport::Tampered { index: i, fault: ChainFault::MerkleRoot };
            }
            proof {
                assert(block_fault(chain, i as int) is None);
            }
            i = i + 1;
        }
        ValidationReport::Consistent
    }

    /// Whether the whole chain validates as fully consistent.
    pub fn is_chain_valid(&self) -> (r: bool)
        ensures
            r == (validation_of(self@.chain) is Consistent),
    {
        let report = self.validate();
        match report {
            ValidationReport::Consistent => true,
            ValidationReport::Tampered { .. } => false,
        }
    }
}

} // verus!
