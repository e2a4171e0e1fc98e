//! The failure conditions the ledger surfaces to callers.
//!
//! All of these are local, recoverable conditions returned as values; none of
//! the library's verified functions panics. Chain validation never produces
//! an error at all: a tampered chain is an expected outcome, reported by a
//! `ValidationReport` instead.

use vstd::prelude::*;
use vstd::string::StringExecFns;

verus! {

/// Typed failures of the signature lifecycle and of block sealing.
#[derive(Debug)]
pub enum TrustFabricError {
    /// The signature algorithm handle could not be constructed.
    PqcAlgorithmCreation(String),
    /// Keypair generation failed inside the signature library.
    PqcKeyGeneration(String),
    /// Signing failed, or the secret-key bytes were malformed.
    TransactionSigning(String),
    /// The signature or public-key bytes were malformed. Never used for a
    /// legitimately mismatched key: that verifies to `false`, not an error.
    TransactionVerification(String),
    /// Signature verification was attempted on an unsigned transaction.
    InvalidTransaction(String),
    /// Block sealing was attempted while the pending pool was empty.
    NoPendingTransactions,
    /// The proof-of-work search exhausted every nonce without meeting the
    /// difficulty; unreachable for any realistic difficulty.
    SealTimeout,
}

impl TrustFabricError {
    /// A human-readable description of the failure.
    pub fn message(&self) -> String {
        match self {
            TrustFabricError::PqcAlgorithmCreation(s) => String::from_str(
                "failed to create PQC signature algorithm: ",
            ).concat(s.as_str()),
            TrustFabricError::PqcKeyGeneration(s) => String::from_str(
                "failed to generate PQC keypair: ",
            ).concat(s.as_str()),
            TrustFabricError::TransactionSigning(s) => String::from_str(
                "failed to sign transaction: ",
            ).concat(s.as_str()),
            TrustFabricError::TransactionVerification(s) => String::from_str(
                "transaction verification failed: ",
            ).concat(s.as_str()),
            TrustFabricError::InvalidTransaction(s) => String::from_str(
                "invalid transaction: ",
            ).concat(s.as_str()),
            TrustFabricError::NoPendingTransactions => String::from_str(
                "no pending transactions to mine",
            ),
            TrustFabricError::SealTimeout => String::from_str(
                "proof-of-work search exhausted the nonce space",
            ),
        }
    }
}

} // verus!
