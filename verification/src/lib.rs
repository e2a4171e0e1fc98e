//! A tamper-evident transaction ledger.
//!
//! Signed transactions are grouped into blocks, every block commits to the
//! previous one through its hash, a Merkle root commits to the block's
//! transaction list, and a proof-of-work puzzle seals each block. Validation
//! walks the chain re-deriving every hash and root, so any tampering with a
//! stored block is detected.

use vstd::prelude::*;

pub mod block;
pub mod codec;
pub mod crypto;
pub mod errors;
pub mod ledger;
pub mod merkle;
pub mod transaction;

verus! {

/// Number of leading hexadecimal zero characters a sealed block's hash must
/// carry. Shared by the whole ledger; the sealing functions also accept an
/// explicit difficulty so other settings remain testable.
pub const DIFFICULTY: usize = 2;

} // verus!
