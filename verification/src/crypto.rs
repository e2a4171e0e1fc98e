//! The two cryptographic primitives the ledger is built on, behind trusted
//! wrappers: the SHA-256 digest (crate `sha2`) and the Dilithium5
//! post-quantum signature scheme (crate `crystals-dilithium`).
//!
//! The digest, the signature and the verification verdict are pure functions
//! of their byte inputs (Dilithium5 signing here is deterministic), so they
//! are named by the uninterpreted spec functions `sha256_of`,
//! `dilithium5_signature_of` and `dilithium5_accepts`; every contract in the
//! library that involves them is stated over those names. Nothing is assumed
//! of generated keys: key generation is random.

use vstd::prelude::*;

use crystals_dilithium::dilithium5;
use sha2::Digest;

verus! {

/// Byte length of a Dilithium5 public key, as
/// `crystals_dilithium::dilithium5::PUBLICKEYBYTES` defines it.
pub const DILITHIUM5_PUBLIC_KEY_BYTES: usize = 2592;

/// Byte length of a Dilithium5 secret key, as
/// `crystals_dilithium::dilithium5::SECRETKEYBYTES` defines it.
pub const DILITHIUM5_SECRET_KEY_BYTES: usize = 4864;

/// Byte length of a Dilithium5 signature, as
/// `crystals_dilithium::dilithium5::SIGNBYTES` defines it.
pub const DILITHIUM5_SIGNATURE_BYTES: usize = 4595;

/// The SHA-256 digest of a byte sequence: the 32-byte value `sha2` computes.
pub uninterp spec fn sha256_of(data: Seq<u8>) -> Seq<u8>;

/// The Dilithium5 signature over `message` under `secret_key`. Signing here
/// is deterministic: a pure function of the two byte strings.
pub uninterp spec fn dilithium5_signature_of(message: Seq<u8>, secret_key: Seq<u8>) -> Seq<u8>;

/// Whether Dilithium5 verification accepts `signature` over `message` under
/// `public_key`. Verification is deterministic: a pure function of the three
/// byte strings.
pub uninterp spec fn dilithium5_accepts(
    message: Seq<u8>,
    signature: Seq<u8>,
    public_key: Seq<u8>,
) -> bool;

/// Relies on `sha2::Sha256` via the `digest` traits: the digest is a pure
/// function of the input bytes and is exactly 32 bytes long.
#[verifier::external_body]
pub(crate) fn sha256(data: &[u8]) -> (r: Vec<u8>)
    ensures
        r@ == sha256_of(data@),
        r@.len() == 32,
{
    sha2::Sha256::digest(data).to_vec()
}

/// Relies on `chrono::Utc::now`: seconds of the current wall-clock time since
/// the Unix epoch. Nothing is assumed of the value.
#[verifier::external_body]
pub(crate) fn current_timestamp() -> i64 {
    chrono::Utc::now().timestamp()
}

/// Generates a fresh Dilithium5 keypair, returned as raw (public, secret)
/// key bytes.
///
/// Relies on `crystals_dilithium::dilithium5::Keypair::generate`, which with
/// no caller-supplied entropy draws a random seed and cannot fail. The keys
/// are random, so only their lengths are stated.
#[verifier::external_body]
pub fn generate_keypair() -> (r: (Vec<u8>, Vec<u8>))
    ensures
        r.0@.len() == DILITHIUM5_PUBLIC_KEY_BYTES,
        r.1@.len() == DILITHIUM5_SECRET_KEY_BYTES,
{
    let keypair = dilithium5::Keypair::generate(None)
        .expect("keypair generation without a caller-supplied seed cannot fail");
    (keypair.public.to_bytes().to_vec(), keypair.secret.to_bytes().to_vec())
}

/// Relies on `crystals_dilithium::dilithium5::SecretKey::{from_bytes, sign}`:
/// signing is deterministic and produces exactly
/// `DILITHIUM5_SIGNATURE_BYTES` bytes.
#[verifier::external_body]
pub(crate) fn dilithium_sign(message: &Vec<u8>, secret_key: &Vec<u8>) -> (r: Vec<u8>)
    requires
        secret_key@.len() == DILITHIUM5_SECRET_KEY_BYTES,
    ensures
        r@ == dilithium5_signature_of(message@, secret_key@),
        r@.len() == DILITHIUM5_SIGNATURE_BYTES,
{
    let sk = dilithium5::SecretKey::from_bytes(secret_key)
        .expect("the caller has checked the secret key length");
    sk.sign(message).to_vec()
}

/// Relies on `crystals_dilithium::dilithium5::PublicKey::{from_bytes,
/// verify}`: the verdict is a pure function of message, signature and key; a
/// mismatched key or an altered message yields `false`, never an error.
#[verifier::external_body]
pub(crate) fn dilithium_verify(
    message: &Vec<u8>,
    signature: &Vec<u8>,
    public_key: &Vec<u8>,
) -> (r: bool)
    requires
        signature@.len() == DILITHIUM5_SIGNATURE_BYTES,
        public_key@.len() == DILITHIUM5_PUBLIC_KEY_BYTES,
    ensures
        r == dilithium5_accepts(message@, signature@, public_key@),
{
    let pk = dilithium5::PublicKey::from_bytes(public_key)
        .expect("the caller has checked the public key length");
    pk.verify(message, signature)
}

} // verus!
