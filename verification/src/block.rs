//! Blocks and the proof-of-work sealer.
//!
//! A block's hash is SHA-256 over the canonical header text — index,
//! created-at, previous hash, nonce and Merkle root rendered and
//! concatenated in that fixed order — encoded as lowercase hexadecimal. A
//! sealed block's hash carries the configured number of leading zero
//! characters; the sealer searches nonces from zero upwards, so sealing an
//! identical candidate header is deterministic.

use vstd::prelude::*;

use crate::codec::{dec_of_i64, dec_of_u64, bytes_to_hex, hex_of, i64_to_dec, u64_to_dec};
use crate::crypto::{current_timestamp, sha256, sha256_of};
use crate::errors::TrustFabricError;
use crate::merkle;
use crate::merkle::merkle_root_chars;
use crate::transaction::{clone_transactions, Transaction, TxView};
use crate::DIFFICULTY;
use vstd::string::{StrSliceExecFns, StringExecFns};
use vstd::utf8::encode_utf8;

verus! {

/// The mathematical content of a block.
pub ghost struct BlockView {
    pub index: u64,
    pub timestamp: i64,
    pub transactions: Seq<TxView>,
    pub previous_hash: Seq<char>,
    pub hash: Seq<char>,
    pub nonce: u64,
    pub merkle_root: Seq<char>,
}

/// A block: header fields, the ordered transaction list the Merkle root
/// commits to, and the block's own hash.
#[derive(Debug)]
pub struct Block {
    pub index: u64,
    pub timestamp: i64,
    pub transactions: Vec<Transaction>,
    pub previous_hash: String,
    pub hash: String,
    pub nonce: u64,
    pub merkle_root: String,
}

impl View for Block {
    type V = BlockView;

    open spec fn view(&self) -> BlockView {
        BlockView {
            index: self.index,
            timestamp: self.timestamp,
            transactions: self.transactions.deep_view(),
            previous_hash: self.previous_hash@,
            hash: self.hash@,
            nonce: self.nonce,
            merkle_root: self.merkle_root@,
        }
    }
}

impl DeepView for Block {
    type V = BlockView;

    open spec fn deep_view(&self) -> BlockView {
        self.view()
    }
}

/// The canonical header text: index, created-at, previous hash, nonce and
/// Merkle root rendered and concatenated in that fixed order.
pub open spec fn header_chars(
    index: u64,
    timestamp: i64,
    previous_hash: Seq<char>,
    nonce: u64,
    merkle_root: Seq<char>,
) -> Seq<char> {
    dec_of_u64(index as nat) + dec_of_i64(timestamp as int) + previous_hash + dec_of_u64(
        nonce as nat,
    ) + merkle_root
}

/// The block hash: SHA-256 over the UTF-8 bytes of the canonical header
/// text, rendered as lowercase hexadecimal. Opaque: only `hash_header`
/// reasons through the definition.
#[verifier::opaque]
pub open spec fn block_hash_chars(
    index: u64,
    timestamp: i64,
    previous_hash: Seq<char>,
    nonce: u64,
    merkle_root: Seq<char>,
) -> Seq<char> {
    hex_of(sha256_of(encode_utf8(header_chars(index, timestamp, previous_hash, nonce, merkle_root))))
}

/// The hash a block's own header fields give, against which a stored hash is
/// judged.
pub open spec fn block_hash_of(b: BlockView) -> Seq<char> {
    block_hash_chars(b.index, b.timestamp, b.previous_hash, b.nonce, b.merkle_root)
}

/// Whether a hash text begins with `difficulty` zero characters.
pub open spec fn has_leading_zeros(hash: Seq<char>, difficulty: nat) -> bool {
    &&& difficulty <= hash.len()
    &&& forall|k: int| 0 <= k < difficulty ==> hash[k] == '0'
}

/// Whether no nonce at all seals the given header fields at the given
/// difficulty; the proof-of-work search fails exactly on such headers.
pub open spec fn no_nonce_seals(
    index: u64,
    timestamp: i64,
    previous_hash: Seq<char>,
    merkle_root: Seq<char>,
    difficulty: nat,
) -> bool {
    forall|m: u64|
        !has_leading_zeros(
            #[trigger] block_hash_chars(index, timestamp, previous_hash, m, merkle_root),
            difficulty,
        )
}

/// What the Merkle-root field of a block holds: empty for an empty
/// transaction list, otherwise the Merkle root of the list.
pub open spec fn merkle_root_field(txs: Seq<TxView>) -> Seq<char> {
    if txs.len() == 0 {
        Seq::empty()
    } else {
        merkle_root_chars(txs)
    }
}

/// A well-formed sealed block: the stored hash is the hash of its own header
/// fields, meets the difficulty, and the stored Merkle root is the root of
/// its own transaction list.
pub open spec fn block_wf(b: BlockView, difficulty: nat) -> bool {
    &&& b.hash == block_hash_of(b)
    &&& has_leading_zeros(b.hash, difficulty)
    &&& b.merkle_root == merkle_root_field(b.transactions)
}

/// Computes the block hash of the given header fields, as
/// `block_hash_chars` describes.
fn hash_header(
    index: u64,
    timestamp: i64,
    previous_hash: &String,
    nonce: u64,
    merkle_root: &String,
) -> (r: String)
    ensures
        r@ == block_hash_chars(index, timestamp, previous_hash@, nonce, merkle_root@),
{
    let mut record = u64_to_dec(index);
    let timestamp_text = i64_to_dec(timestamp);
    record.append(timestamp_text.as_str());
    record.append(previous_hash.as_str());
    let nonce_text = u64_to_dec(nonce);
    record.append(nonce_text.as_str());
    record.append(merkle_root.as_str());
    proof {
        reveal(block_hash_chars);
        assert(record@ =~= header_chars(index, timestamp, previous_hash@, nonce, merkle_root@));
    }
    let digest = sha256(record.as_str().as_bytes());
    bytes_to_hex(&digest)
}

/// Checks whether a hash text begins with `difficulty` zero characters, as
/// `has_leading_zeros` describes.
fn meets_difficulty(hash: &String, difficulty: usize) -> (r: bool)
    ensures
        r == has_leading_zeros(hash@, difficulty as nat),
{
    if hash.as_str().unicode_len() < difficulty {
        return false;
    }
    let mut k: usize = 0;
    while k < difficulty
        invariant
            k <= difficulty,
            difficulty <= hash@.len(),
            forall|m: int| 0 <= m < k ==> hash@[m] == '0',
        decreases difficulty - k,
    {
        if hash.as_str().get_char(k) != '0' {
            return false;
        }
        k = k + 1;
    }
    true
}

/// The proof-of-work search: starting at zero and incrementing, finds the
/// least nonce whose header hash meets the difficulty, and returns that
/// nonce with its hash. `None` only when every nonce fails the difficulty,
/// which no realistic difficulty produces.
///
/// Two searches over identical header fields return identical results.
pub fn seal(
    index: u64,
    timestamp: i64,
    previous_hash: &String,
    merkle_root: &String,
    difficulty: usize,
) -> (r: Option<(u64, String)>)
    ensures
        match r {
            Some(sealed) => {
                &&& sealed.1@ == block_hash_chars(
                    index,
                    timestamp,
                    previous_hash@,
                    sealed.0,
                    merkle_root@,
                )
                &&& has_leading_zeros(sealed.1@, difficulty as nat)
                &&& forall|m: u64|
                    m < sealed.0 ==> !has_leading_zeros(
                        block_hash_chars(index, timestamp, previous_hash@, m, merkle_root@),
                        difficulty as nat,
                    )
            },
            None => no_nonce_seals(
                index,
                timestamp,
                previous_hash@,
                merkle_root@,
                difficulty as nat,
            ),
        },
{
    let mut nonce: u64 = 0;
    loop
        invariant
            forall|m: u64|
                m < nonce ==> !has_leading_zeros(
                    block_hash_chars(index, timestamp, previous_hash@, m, merkle_root@),
                    difficulty as nat,
                ),
        decreases u64::MAX - nonce,
    {
        let hash = hash_header(index, timestamp, previous_hash, nonce, merkle_root);
        if meets_difficulty(&hash, difficulty) {
            return Some((nonce, hash));
        }
        if nonce == u64::MAX {
            proof {
                assert forall|m: u64|
                    !has_leading_zeros(
                        block_hash_chars(index, timestamp, previous_hash@, m, merkle_root@),
                        difficulty as nat,
                    ) by {
                    if m == u64::MAX {
                        assert(hash@ == block_hash_chars(
                            index,
                            timestamp,
                            previous_hash@,
                            m,
                            merkle_root@,
                        ));
                    }
                }
            }
            return None;
        }
        nonce = nonce + 1;
    }
}

/// Sealing is deterministic: two nonce-and-hash pairs that each satisfy the
/// sealing contract — the hash is the header hash of its nonce, it meets the
/// difficulty, and every smaller nonce fails — for the same candidate header
/// fields are the same pair.
pub proof fn lemma_sealing_deterministic(
    index: u64,
    timestamp: i64,
    previous_hash: Seq<char>,
    merkle_root: Seq<char>,
    difficulty: nat,
    first: (u64, Seq<char>),
    second: (u64, Seq<char>),
)
    requires
        first.1 == block_hash_chars(index, timestamp, previous_hash, first.0, merkle_root),
        has_leading_zeros(first.1, difficulty),
        forall|m: u64|
            m < first.0 ==> !has_leading_zeros(
                block_hash_chars(index, timestamp, previous_hash, m, merkle_root),
                difficulty,
            ),
        second.1 == block_hash_chars(index, timestamp, previous_hash, second.0, merkle_root),
        has_leading_zeros(second.1, difficulty),
        forall|m: u64|
            m < second.0 ==> !has_leading_zeros(
                block_hash_chars(index, timestamp, previous_hash, m, merkle_root),
                difficulty,
            ),
    ensures
        first == second,
{
    if first.0 < second.0 {
        assert(!has_leading_zeros(
            block_hash_chars(index, timestamp, previous_hash, first.0, merkle_root),
            difficulty,
        ));
    }
    if second.0 < first.0 {
        assert(!has_leading_zeros(
            block_hash_chars(index, timestamp, previous_hash, second.0, merkle_root),
            difficulty,
        ));
    }
}

impl Clone for Block {
    /// Copies every field; the copy has the same mathematical content.
    fn clone(&self) -> (r: Self)
        ensures
            r@ == self@,
    {
        Block {
            index: self.index,
            timestamp: self.timestamp,
            transactions: clone_transactions(&self.transactions),
            previous_hash: self.previous_hash.clone(),
            hash: self.hash.clone(),
            nonce: self.nonce,
            merkle_root: self.merkle_root.clone(),
        }
    }
}

impl Block {
    /// Builds and seals a block over the given transactions: stamps the
    /// current time, derives the Merkle root (empty text for an empty list),
    /// and runs the proof-of-work search at the ledger difficulty. Fails
    /// only if the search exhausts every nonce.
    pub fn new(index: u64, previous_hash: String, transactions: Vec<Transaction>) -> (r: Result<
        Block,
        TrustFabricError,
    >)
        ensures
            match r {
                Ok(b) => {
                    &&& b@.index == index
                    &&& b@.previous_hash == previous_hash@
                    &&& b@.transactions == transactions.deep_view()
                    &&& block_wf(b@, DIFFICULTY as nat)
                    &&& forall|m: u64|
                        m < b@.nonce ==> !has_leading_zeros(
                            block_hash_chars(
                                index,
                                b@.timestamp,
                                previous_hash@,
                                m,
                                b@.merkle_root,
                            ),
                            DIFFICULTY as nat,
                        )
                },
                Err(e) => e is SealTimeout && (exists|t: i64|
                    no_nonce_seals(
                        index,
                        t,
                        previous_hash@,
                        merkle_root_field(transactions.deep_view()),
                        DIFFICULTY as nat,
                    )),
            },
    {
        let timestamp = current_timestamp();
        let merkle_root = match merkle::compute_root(&transactions) {
            Some(root) => root,
            None => String::new(),
        };
        match seal(index, timestamp, &previous_hash, &merkle_root, DIFFICULTY) {
            Some((nonce, hash)) => Ok(
                Block { index, timestamp, transactions, previous_hash, hash, nonce, merkle_root },
            ),
            None => {
                proof {
                    assert(merkle_root@ == merkle_root_field(transactions.deep_view()));
                }
                Err(TrustFabricError::SealTimeout)
            },
        }
    }

    /// Builds the genesis block: index zero, previous hash `"0"`, no
    /// transactions, sealed like every other block. Fails only if the
    /// proof-of-work search exhausts every nonce.
    pub fn new_genesis() -> (r: Result<Block, TrustFabricError>)
        ensures
            match r {
                Ok(b) => {
                    &&& b@.index == 0
                    &&& b@.previous_hash == seq!['0']
                    &&& b@.transactions == Seq::<TxView>::empty()
                    &&& block_wf(b@, DIFFICULTY as nat)
                },
                Err(e) => e is SealTimeout && (exists|t: i64|
                    no_nonce_seals(0, t, seq!['0'], Seq::empty(), DIFFICULTY as nat)),
            },
    {
        let sentinel = String::from_str("0");
        proof {
            reveal_strlit("0");
            assert(sentinel@ =~= seq!['0']);
        }
        let empty: Vec<Transaction> = Vec::new();
        proof {
            assert(empty.deep_view() =~= Seq::<TxView>::empty());
        }
        Block::new(0, sentinel, empty)
    }

    /// Computes the hash of this block's own header fields, as
    /// `block_hash_of` describes; it need not match the stored hash if the
    /// block was tampered with.
    pub fn calculate_hash(&self) -> (r: String)
        ensures
            r@ == block_hash_of(self@),
    {
        hash_header(self.index, self.timestamp, &self.previous_hash, self.nonce, &self.merkle_root)
    }

    /// Re-seals this block at the ledger difficulty: replaces nonce and hash
    /// with the proof-of-work result over the other header fields, starting
    /// the nonce search from zero. Fails, leaving the block unchanged, only
    /// if the search exhausts every nonce.
    pub fn mine_block(&mut self) -> (r: Result<(), TrustFabricError>)
        ensures
            ({
                let o = old(self)@;
                let n = final(self)@;
                &&& n.index == o.index
                &&& n.timestamp == o.timestamp
                &&& n.transactions == o.transactions
                &&& n.previous_hash == o.previous_hash
                &&& n.merkle_root == o.merkle_root
                &&& (r is Ok ==> {
                    &&& n.hash == block_hash_of(n)
                    &&& has_leading_zeros(n.hash, DIFFICULTY as nat)
                    &&& forall|m: u64|
                        m < n.nonce ==> !has_leading_zeros(
                            block_hash_chars(
                                o.index,
                                o.timestamp,
                                o.previous_hash,
                                m,
                                o.merkle_root,
                            ),
                            DIFFICULTY as nat,
                        )
                })
                &&& (r is Err ==> n == o && r->Err_0 is SealTimeout && no_nonce_seals(
                    o.index,
                    o.timestamp,
                    o.previous_hash,
                    o.merkle_root,
                    DIFFICULTY as nat,
                ))
            }),
    {
        match seal(self.index, self.timestamp, &self.previous_hash, &self.merkle_root, DIFFICULTY) {
            Some((nonce, hash)) => {
                self.nonce = nonce;
                self.hash = hash;
                Ok(())
            },
            None => Err(TrustFabricError::SealTimeout),
        }
    }

    /// Computes the Merkle root of the given transactions, as
    /// `merkle_root_chars` describes: `None` exactly for an empty list.
    pub fn calculate_merkle_root(transactions: &Vec<Transaction>) -> (r: Option<String>)
        ensures
            match r {
                None => transactions@.len() == 0,
                Some(root) => transactions@.len() > 0 && root@ == merkle_root_chars(
                    transactions.deep_view(),
                ),
            },
    {
        merkle::compute_root(transactions)
    }
}

} // verus!
