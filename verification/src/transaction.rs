//! Signed transactions: the unit of ledger content.
//!
//! A transaction carries four signable fields (sender, recipient, amount,
//! created-at) and an optional signature. The digest of the signable fields
//! is SHA-256 over their canonical text serialization, `tx_digest`; the
//! signature, once attached, was computed over that digest. Mutating a
//! signable field afterwards does not erase the stale signature — it changes
//! the digest, so verification against the new content fails.

use vstd::prelude::*;

use crate::codec::{dec_of_i64, dec_of_u64, i64_to_dec, u64_to_dec};
use crate::crypto::{
    dilithium5_accepts, dilithium5_signature_of, dilithium_sign, dilithium_verify, sha256,
    sha256_of, current_timestamp, DILITHIUM5_PUBLIC_KEY_BYTES, DILITHIUM5_SECRET_KEY_BYTES,
    DILITHIUM5_SIGNATURE_BYTES,
};
use crate::errors::TrustFabricError;
use vstd::string::StringExecFns;
use vstd::utf8::encode_utf8;

verus! {

/// The mathematical content of a transaction: the four signable fields and
/// the attached signature bytes, if any.
pub ghost struct TxView {
    pub from_address: Seq<char>,
    pub to_address: Seq<char>,
    pub amount: u64,
    pub timestamp: i64,
    pub signature: Option<Seq<u8>>,
}

/// A single value transfer, constructed unsigned and signed at most once at
/// a time; re-signing after mutation overwrites the prior signature.
#[derive(Debug)]
pub struct Transaction {
    pub from_address: String,
    pub to_address: String,
    pub amount: u64,
    pub timestamp: i64,
    pub signature: Option<Vec<u8>>,
}

impl View for Transaction {
    type V = TxView;

    open spec fn view(&self) -> TxView {
        TxView {
            from_address: self.from_address@,
            to_address: self.to_address@,
            amount: self.amount,
            timestamp: self.timestamp,
            signature: match self.signature {
                Some(s) => Some(s@),
                None => None,
            },
        }
    }
}

impl DeepView for Transaction {
    type V = TxView;

    open spec fn deep_view(&self) -> TxView {
        self.view()
    }
}

/// The canonical serialization of the signable fields: sender, recipient,
/// amount and created-at rendered as text and concatenated in that order.
pub open spec fn tx_record_chars(t: TxView) -> Seq<char> {
    t.from_address + t.to_address + dec_of_u64(t.amount as nat) + dec_of_i64(t.timestamp as int)
}

/// The digest of a transaction's signable fields: SHA-256 over the UTF-8
/// bytes of the canonical serialization. Independent of the signature state.
pub open spec fn tx_digest(t: TxView) -> Seq<u8> {
    sha256_of(encode_utf8(tx_record_chars(t)))
}

/// The digest is independent of the signature state: two transactions that
/// agree on the four signable fields have the same digest, whatever
/// signatures they carry. Signing, or overwriting a signature, never changes
/// what is signed.
pub proof fn lemma_digest_ignores_signature(t1: TxView, t2: TxView)
    requires
        t1.from_address == t2.from_address,
        t1.to_address == t2.to_address,
        t1.amount == t2.amount,
        t1.timestamp == t2.timestamp,
    ensures
        tx_digest(t1) == tx_digest(t2),
{
}

impl Clone for Transaction {
    /// Copies every field; the copy has the same mathematical content.
    fn clone(&self) -> (r: Self)
        ensures
            r@ == self@,
    {
        Transaction {
            from_address: self.from_address.clone(),
            to_address: self.to_address.clone(),
            amount: self.amount,
            timestamp: self.timestamp,
            signature: match &self.signature {
                Some(s) => Some(vstd::slice::slice_to_vec(s.as_slice())),
                None => None,
            },
        }
    }
}

/// Copies a transaction list; the copy has the same mathematical content,
/// element for element.
pub fn clone_transactions(transactions: &Vec<Transaction>) -> (r: Vec<Transaction>)
    ensures
        r.deep_view() == transactions.deep_view(),
{
    let mut r: Vec<Transaction> = Vec::new();
    let mut i: usize = 0;
    while i < transactions.len()
        invariant
            i <= transactions@.len(),
            r.deep_view() =~= transactions.deep_view().take(i as int),
        decreases transactions@.len() - i,
    {
        let copy = transactions[i].clone();
        let ghost pre = r.deep_view();
        r.push(copy);
        proof {
            assert forall|k: int| 0 <= k < pre.len() implies r.deep_view()[k] == pre[k] by {
                assert(r@[k] == r@.subrange(0, pre.len() as int)[k]);
            }
            assert(r.deep_view()[pre.len() as int] == copy@);
            assert(copy@ == transactions.deep_view()[i as int]);
            assert(r.deep_view() =~= transactions.deep_view().take(i + 1));
        }
        i = i + 1;
    }
    proof {
        assert(r.deep_view() =~= transactions.deep_view());
    }
    r
}

impl Transaction {
    /// Builds an unsigned transaction over the given sender, recipient and
    /// amount, stamped with the current wall-clock time.
    pub fn new(from: String, to: String, amount: u64) -> (r: Transaction)
        ensures
            r@.from_address == from@,
            r@.to_address == to@,
            r@.amount == amount,
            r@.signature is None,
    {
        Transaction {
            from_address: from,
            to_address: to,
            amount,
            timestamp: current_timestamp(),
            signature: None,
        }
    }

    /// Computes the SHA-256 digest of the four signable fields, as
    /// `tx_digest` describes: deterministic, and independent of whether a
    /// signature is attached.
    pub fn calculate_hash(&self) -> (r: Vec<u8>)
        ensures
            r@ == tx_digest(self@),
            r@.len() == 32,
    {
        let mut record = self.from_address.clone();
        record.append(self.to_address.as_str());
        let amount_text = u64_to_dec(self.amount);
        record.append(amount_text.as_str());
        let timestamp_text = i64_to_dec(self.timestamp);
        record.append(timestamp_text.as_str());
        proof {
            assert(record@ =~= tx_record_chars(self@));
        }
        sha256(record.as_str().as_bytes())
    }

    /// Signs the digest of the signable fields with the given Dilithium5
    /// secret key and stores the signature, overwriting any prior one.
    ///
    /// Succeeds exactly when the key has the Dilithium5 secret-key length;
    /// on failure the transaction is unchanged.
    pub fn sign_transaction(&mut self, secret_key: &Vec<u8>) -> (r: Result<(), TrustFabricError>)
        ensures
            final(self).from_address@ == old(self).from_address@,
            final(self).to_address@ == old(self).to_address@,
            final(self).amount == old(self).amount,
            final(self).timestamp == old(self).timestamp,
            r is Ok <==> secret_key@.len() == DILITHIUM5_SECRET_KEY_BYTES,
            r is Ok ==> final(self)@.signature == Some(
                dilithium5_signature_of(tx_digest(old(self)@), secret_key@),
            ),
            r is Err ==> final(self)@ == old(self)@ && r->Err_0 is TransactionSigning,
    {
        if secret_key.len() != DILITHIUM5_SECRET_KEY_BYTES {
            return Err(TrustFabricError::TransactionSigning(String::from_str(
                "secret key length does not match Dilithium5",
            )));
        }
        let digest = self.calculate_hash();
        let signature = dilithium_sign(&digest, secret_key);
        self.signature = Some(signature);
        Ok(())
    }

    /// Verifies the stored signature against the current signable fields
    /// under the given Dilithium5 public key.
    ///
    /// An unsigned transaction is an error; malformed signature or key bytes
    /// (wrong length) are an error; otherwise the result is the
    /// verification verdict — `false` for a mismatched key or tampered
    /// fields, never an error.
    pub fn is_valid(&self, public_key: &Vec<u8>) -> (r: Result<bool, TrustFabricError>)
        ensures
            self@.signature is None <==> r is Err && r->Err_0 is InvalidTransaction,
            self@.signature matches Some(s) && s.len() != DILITHIUM5_SIGNATURE_BYTES ==> r
                is Err && r->Err_0 is TransactionVerification,
            self@.signature matches Some(s) && s.len() == DILITHIUM5_SIGNATURE_BYTES
                && public_key@.len() != DILITHIUM5_PUBLIC_KEY_BYTES ==> r is Err && r->Err_0
                is TransactionVerification,
            self@.signature matches Some(s) && s.len() == DILITHIUM5_SIGNATURE_BYTES
                && public_key@.len() == DILITHIUM5_PUBLIC_KEY_BYTES ==> r is Ok && r->Ok_0
                == dilithium5_accepts(tx_digest(self@), self@.signature->0, public_key@),
    {
        let signature = match &self.signature {
            None => {
                return Err(TrustFabricError::InvalidTransaction(String::from_str(
                    "transaction is not signed",
                )));
            },
            Some(s) => s,
        };
        if signature.len() != DILITHIUM5_SIGNATURE_BYTES {
            return Err(TrustFabricError::TransactionVerification(String::from_str(
                "signature length does not match Dilithium5",
            )));
        }
        if public_key.len() != DILITHIUM5_PUBLIC_KEY_BYTES {
            return Err(TrustFabricError::TransactionVerification(String::from_str(
                "public key length does not match Dilithium5",
            )));
        }
        let digest = self.calculate_hash();
        Ok(dilithium_verify(&digest, signature, public_key))
    }
}

} // verus!
