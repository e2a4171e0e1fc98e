//! The Merkle digester: reduces an ordered transaction list to a single
//! root hash.
//!
//! Each transaction's digest is hashed once more to form its leaf; adjacent
//! leaves are then repeatedly concatenated and hashed up to a single value,
//! duplicating the last hash of an odd level before pairing. The root is the
//! hexadecimal encoding of that final pair-hash — it is deliberately not
//! hashed again, matching the reference behaviour. The root is deterministic
//! and, through the hash, sensitive to leaf order and to any leaf content
//! change.

use vstd::prelude::*;

use crate::codec::{bytes_to_hex, hex_of};
use crate::crypto::{sha256, sha256_of};
use crate::transaction::{tx_digest, Transaction, TxView};

verus! {

/// The Merkle leaf of a transaction: the SHA-256 hash of the transaction's
/// digest.
pub open spec fn leaf_hash(t: TxView) -> Seq<u8> {
    sha256_of(tx_digest(t))
}

/// The ordered leaf hashes of a transaction list.
pub open spec fn leaf_hashes(txs: Seq<TxView>) -> Seq<Seq<u8>> {
    txs.map_values(|t: TxView| leaf_hash(t))
}

/// A level padded to even length: an odd level duplicates its last hash.
pub open spec fn pad_level(level: Seq<Seq<u8>>) -> Seq<Seq<u8>> {
    if level.len() % 2 == 1 {
        level.push(level.last())
    } else {
        level
    }
}

/// The parent of an even-length level: adjacent hashes concatenated and
/// hashed pairwise.
pub open spec fn parent_level(level: Seq<Seq<u8>>) -> Seq<Seq<u8>> {
    Seq::new(level.len() / 2, |i: int| sha256_of(level[2 * i] + level[2 * i + 1]))
}

/// Pairwise reduction of a non-empty level to the single remaining hash.
pub open spec fn merkle_reduce(level: Seq<Seq<u8>>) -> Seq<u8>
    recommends
        level.len() >= 1,
    decreases level.len(),
{
    if level.len() <= 1 {
        if level.len() == 1 {
            level[0]
        } else {
            seq![]
        }
    } else {
        merkle_reduce(parent_level(pad_level(level)))
    }
}

/// The Merkle root of a non-empty transaction list: the hexadecimal
/// encoding of the reduction of its leaf hashes. Opaque: only `compute_root`
/// reasons through the definition.
#[verifier::opaque]
pub open spec fn merkle_root_chars(txs: Seq<TxView>) -> Seq<char>
    recommends
        txs.len() > 0,
{
    hex_of(merkle_reduce(leaf_hashes(txs)))
}

/// Concatenation of two byte vectors.
fn concat_bytes(a: &Vec<u8>, b: &Vec<u8>) -> (r: Vec<u8>)
    ensures
        r@ == a@ + b@,
{
    let mut r = vstd::slice::slice_to_vec(a.as_slice());
    let mut k: usize = 0;
    while k < b.len()
        invariant
            k <= b@.len(),
            r@ =~= a@ + b@.take(k as int),
        decreases b@.len() - k,
    {
        r.push(b[k]);
        k = k + 1;
    }
    proof {
        assert(r@ =~= a@ + b@);
    }
    r
}

/// Computes the Merkle root of the given transactions, as
/// `merkle_root_chars` describes: `None` exactly for an empty list.
pub fn compute_root(transactions: &Vec<Transaction>) -> (r: Option<String>)
    ensures
        match r {
            None => transactions@.len() == 0,
            Some(root) => transactions@.len() > 0 && root@ == merkle_root_chars(
                transactions.deep_view(),
            ),
        },
{
    if transactions.len() == 0 {
        return None;
    }
    let ghost views = transactions.deep_view();
    let mut hashes: Vec<Vec<u8>> = Vec::new();
    let mut i: usize = 0;
    while i < transactions.len()
        invariant
            i <= transactions@.len(),
            views == transactions.deep_view(),
            hashes.deep_view() =~= leaf_hashes(views).take(i as int),
        decreases transactions@.len() - i,
    {
        let digest = transactions[i].calculate_hash();
        let leaf = sha256(digest.as_slice());
        let ghost pre = hashes.deep_view();
        hashes.push(leaf);
        proof {
            assert(views[i as int] == transactions@[i as int]@);
            assert(leaf@ == leaf_hash(views[i as int]));
            assert(leaf_hashes(views)[i as int] == leaf_hash(views[i as int]));
            assert forall|k: int| 0 <= k < pre.len() implies hashes.deep_view()[k] == pre[k] by {
                assert(hashes@[k] == hashes@.subrange(0, pre.len() as int)[k]);
            }
            assert(hashes.deep_view()[pre.len() as int] == leaf@);
            assert(hashes.deep_view() =~= pre.push(leaf@));
            assert(leaf_hashes(views).take(i + 1) =~= leaf_hashes(views).take(i as int).push(
                leaf_hashes(views)[i as int],
            ));
        }
        i = i + 1;
    }
    proof {
        assert(hashes.deep_view() =~= leaf_hashes(views));
    }
    while hashes.len() > 1
        invariant
            hashes@.len() >= 1,
            merkle_reduce(hashes.deep_view()) == merkle_reduce(leaf_hashes(views)),
        decreases hashes@.len(),
    {
        let ghost entry = hashes.deep_view();
        if hashes.len() % 2 == 1 {
            let last = vstd::slice::slice_to_vec(hashes[hashes.len() - 1].as_slice());
            let ghost pre = hashes.deep_view();
            hashes.push(last);
            proof {
                assert forall|k: int| 0 <= k < pre.len() implies hashes.deep_view()[k] == pre[k]
                    by {
                    assert(hashes@[k] == hashes@.subrange(0, pre.len() as int)[k]);
                }
                assert(hashes.deep_view()[pre.len() as int] == entry.last());
            }
        }
        proof {
            assert(hashes.deep_view() =~= pad_level(entry));
        }
        let ghost padded = hashes.deep_view();
        let mut next: Vec<Vec<u8>> = Vec::new();
        let mut j: usize = 0;
        while j < hashes.len() / 2
            invariant
                j <= hashes@.len() / 2,
                padded == hashes.deep_view(),
                hashes@.len() % 2 == 0,
                hashes@.len() >= 2,
                next.deep_view() =~= parent_level(padded).take(j as int),
            decreases hashes@.len() / 2 - j,
        {
            let combined = concat_bytes(&hashes[2 * j], &hashes[2 * j + 1]);
            let parent = sha256(combined.as_slice());
            let ghost pre = next.deep_view();
            next.push(parent);
            proof {
                assert(padded[2 * j as int] == hashes@[2 * j as int]@);
                assert(padded[2 * j + 1] == hashes@[2 * j + 1]@);
                assert(0 <= j < parent_level(padded).len());
                assert(parent_level(padded)[j as int] == sha256_of(
                    padded[2 * j as int] + padded[2 * j + 1],
                ));
                assert(parent@ == parent_level(padded)[j as int]);
                assert forall|k: int| 0 <= k < pre.len() implies next.deep_view()[k] == pre[k] by {
                    assert(next@[k] == next@.subrange(0, pre.len() as int)[k]);
                }
                assert(next.deep_view()[pre.len() as int] == parent@);
                assert(parent_level(padded).take(j + 1) =~= parent_level(padded).take(
                    j as int,
                ).push(parent_level(padded)[j as int]));
                assert(next.deep_view() =~= parent_level(padded).take(j + 1));
            }
            j = j + 1;
        }
        proof {
            assert(next.deep_view() =~~= parent_level(padded));
            assert(merkle_reduce(entry) == merkle_reduce(parent_level(pad_level(entry))));
        }
        hashes = next;
    }
    let root = bytes_to_hex(&hashes[0]);
    proof {
        reveal(merkle_root_chars);
        assert(merkle_reduce(hashes.deep_view()) == hashes.deep_view()[0]);
        assert(hashes.deep_view()[0] == hashes@[0]@);
    }
    Some(root)
}

} // verus!
