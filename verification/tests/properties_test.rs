// Property tests: exact digests and hashes recomputed independently, sealing
// determinism, the genesis shape, the empty-pool failure, the one-transaction
// sealing scenario, and the distinguishable validation reports.

use sha2::Digest;
use trust_fabric::block::{seal, Block};
use trust_fabric::crypto::{
    generate_keypair, DILITHIUM5_PUBLIC_KEY_BYTES, DILITHIUM5_SECRET_KEY_BYTES,
    DILITHIUM5_SIGNATURE_BYTES,
};
use trust_fabric::errors::TrustFabricError;
use trust_fabric::ledger::{Blockchain, ChainFault, ValidationReport};
use trust_fabric::transaction::Transaction;
use trust_fabric::DIFFICULTY;

fn sha256_bytes(data: &[u8]) -> Vec<u8> {
    sha2::Sha256::digest(data).to_vec()
}

fn to_hex(data: &[u8]) -> String {
    let mut s = String::new();
    for b in data {
        s.push_str(&format!("{:02x}", b));
    }
    s
}

fn fixed_transaction(from: &str, to: &str, amount: u64, timestamp: i64) -> Transaction {
    Transaction {
        from_address: from.to_string(),
        to_address: to.to_string(),
        amount,
        timestamp,
        signature: None,
    }
}

fn expected_tx_digest(tx: &Transaction) -> Vec<u8> {
    let record =
        format!("{}{}{}{}", tx.from_address, tx.to_address, tx.amount, tx.timestamp);
    sha256_bytes(record.as_bytes())
}

#[test]
fn transaction_digest_matches_reference_serialization() {
    let tx = fixed_transaction("Alice", "Bob", 50, 1_700_000_000);
    assert_eq!(tx.calculate_hash(), expected_tx_digest(&tx));
}

#[test]
fn transaction_digest_handles_negative_timestamp_and_empty_addresses() {
    let tx = fixed_transaction("", "", 0, -12345);
    assert_eq!(tx.calculate_hash(), expected_tx_digest(&tx));
    let record = format!("{}{}{}{}", "", "", 0, -12345);
    assert_eq!(tx.calculate_hash(), sha256_bytes(record.as_bytes()));
}

#[test]
fn transaction_digest_ignores_signature_state() {
    let mut tx = fixed_transaction("Alice", "Bob", 50, 77);
    let before = tx.calculate_hash();
    tx.signature = Some(vec![1, 2, 3]);
    assert_eq!(tx.calculate_hash(), before);
}

#[test]
fn block_hash_matches_reference_serialization() {
    let block = Block::new(3, "00abc".to_string(), Vec::new()).unwrap();
    let record = format!(
        "{}{}{}{}{}",
        block.index, block.timestamp, block.previous_hash, block.nonce, block.merkle_root
    );
    assert_eq!(block.calculate_hash(), to_hex(&sha256_bytes(record.as_bytes())));
    assert_eq!(block.hash, block.calculate_hash());
}

#[test]
fn merkle_root_is_derivable_from_the_described_algorithm() {
    // Three transactions exercise the odd-count duplicate padding.
    let txs = vec![
        fixed_transaction("A", "B", 10, 1),
        fixed_transaction("B", "C", 20, 2),
        fixed_transaction("C", "D", 30, 3),
    ];
    let mut level: Vec<Vec<u8>> = txs.iter().map(|t| sha256_bytes(&expected_tx_digest(t))).collect();
    while level.len() > 1 {
        if level.len() % 2 != 0 {
            level.push(level.last().unwrap().clone());
        }
        level = level
            .chunks(2)
            .map(|pair| {
                let mut combined = pair[0].clone();
                combined.extend_from_slice(&pair[1]);
                sha256_bytes(&combined)
            })
            .collect();
    }
    let expected = to_hex(&level[0]);
    assert_eq!(Block::calculate_merkle_root(&txs).unwrap(), expected);
}

#[test]
fn merkle_root_is_sensitive_to_leaf_order() {
    let tx1 = fixed_transaction("A", "B", 10, 1);
    let tx2 = fixed_transaction("B", "C", 20, 2);
    let forward = Block::calculate_merkle_root(&vec![tx1.clone(), tx2.clone()]).unwrap();
    let swapped = Block::calculate_merkle_root(&vec![tx2, tx1]).unwrap();
    assert_ne!(forward, swapped);
}

#[test]
fn merkle_root_of_empty_list_is_none() {
    assert!(Block::calculate_merkle_root(&Vec::new()).is_none());
}

#[test]
fn sealing_is_deterministic_and_meets_difficulty() {
    let previous_hash = "00fe".to_string();
    let merkle_root = "abcd".to_string();
    let first = seal(7, 1_700_000_000, &previous_hash, &merkle_root, DIFFICULTY).unwrap();
    let second = seal(7, 1_700_000_000, &previous_hash, &merkle_root, DIFFICULTY).unwrap();
    assert_eq!(first, second);
    assert!(first.1.starts_with(&"0".repeat(DIFFICULTY)));

    let harder = seal(7, 1_700_000_000, &previous_hash, &merkle_root, 3).unwrap();
    assert!(harder.1.starts_with("000"));
}

#[test]
fn resealing_a_block_reproduces_nonce_and_hash() {
    let mut block = Block::new(1, "00aa".to_string(), Vec::new()).unwrap();
    let nonce = block.nonce;
    let hash = block.hash.clone();
    block.mine_block().unwrap();
    assert_eq!(block.nonce, nonce);
    assert_eq!(block.hash, hash);
}

#[test]
fn new_ledger_holds_only_the_genesis_sentinel() {
    let ledger = Blockchain::new().unwrap();
    assert_eq!(ledger.chain.len(), 1);
    assert_eq!(ledger.chain[0].index, 0);
    assert_eq!(ledger.chain[0].previous_hash, "0");
    assert!(ledger.chain[0].transactions.is_empty());
    assert_eq!(ledger.chain[0].merkle_root, "");
    assert!(ledger.pending_transactions.is_empty());
    assert!(ledger.is_chain_valid());
}

#[test]
fn sealing_an_empty_pool_fails_and_changes_nothing() {
    let mut ledger = Blockchain::new().unwrap();
    let genesis_hash = ledger.chain[0].hash.clone();
    let outcome = ledger.mine_and_add_block();
    assert!(matches!(outcome, Err(TrustFabricError::NoPendingTransactions)));
    assert_eq!(ledger.chain.len(), 1);
    assert_eq!(ledger.chain[0].hash, genesis_hash);
    assert!(ledger.pending_transactions.is_empty());
}

#[test]
fn sealing_one_transaction_extends_a_fresh_ledger() {
    let mut ledger = Blockchain::new().unwrap();
    let genesis_hash = ledger.chain[0].hash.clone();
    ledger.add_transaction(fixed_transaction("Alice", "Bob", 50, 4));
    let block = ledger.mine_and_add_block().unwrap();
    assert_eq!(ledger.chain.len(), 2);
    assert_eq!(block.index, 1);
    assert_eq!(block.previous_hash, genesis_hash);
    assert_eq!(block.transactions.len(), 1);
    assert_eq!(block.transactions[0].amount, 50);
    assert!(ledger.pending_transactions.is_empty());
}

fn three_block_ledger() -> Blockchain {
    let mut ledger = Blockchain::new().unwrap();
    ledger.add_transaction(fixed_transaction("A", "B", 10, 1));
    ledger.mine_and_add_block().unwrap();
    ledger.add_transaction(fixed_transaction("B", "C", 5, 2));
    ledger.mine_and_add_block().unwrap();
    ledger
}

#[test]
fn validation_reports_are_distinguishable() {
    let fresh = three_block_ledger();
    assert_eq!(fresh.validate(), ValidationReport::Consistent);

    let mut amount_tampered = three_block_ledger();
    amount_tampered.chain[1].transactions[0].amount = 9999;
    assert_eq!(
        amount_tampered.validate(),
        ValidationReport::Tampered { index: 1, fault: ChainFault::MerkleRoot },
    );

    let mut link_tampered = three_block_ledger();
    link_tampered.chain[2].previous_hash = "invalid_hash".to_string();
    assert_eq!(
        link_tampered.validate(),
        ValidationReport::Tampered { index: 2, fault: ChainFault::Linkage },
    );

    let mut hash_tampered = three_block_ledger();
    hash_tampered.chain[1].nonce += 1;
    assert_eq!(
        hash_tampered.validate(),
        ValidationReport::Tampered { index: 1, fault: ChainFault::BlockHash },
    );
}

#[test]
fn unsigned_transaction_is_an_invalid_transaction_error() {
    let (pk, _sk) = generate_keypair();
    let tx = fixed_transaction("Alice", "Bob", 1, 1);
    assert!(matches!(tx.is_valid(&pk), Err(TrustFabricError::InvalidTransaction(_))));
}

#[test]
fn malformed_signature_bytes_are_a_verification_error() {
    let (pk, _sk) = generate_keypair();
    let mut tx = fixed_transaction("Alice", "Bob", 1, 1);
    tx.signature = Some(vec![1, 2, 3]);
    assert!(matches!(tx.is_valid(&pk), Err(TrustFabricError::TransactionVerification(_))));
}

#[test]
fn malformed_public_key_bytes_are_a_verification_error() {
    let (_pk, sk) = generate_keypair();
    let mut tx = fixed_transaction("Alice", "Bob", 1, 1);
    tx.sign_transaction(&sk).unwrap();
    let short_key = vec![0u8; 5];
    assert!(matches!(tx.is_valid(&short_key), Err(TrustFabricError::TransactionVerification(_))));
}

#[test]
fn malformed_secret_key_bytes_are_a_signing_error() {
    let mut tx = fixed_transaction("Alice", "Bob", 1, 1);
    let short_key = vec![0u8; 5];
    assert!(matches!(
        tx.sign_transaction(&short_key),
        Err(TrustFabricError::TransactionSigning(_))
    ));
    assert!(tx.signature.is_none());
}

#[test]
fn key_and_signature_lengths_match_the_scheme() {
    let (pk, sk) = generate_keypair();
    assert_eq!(pk.len(), DILITHIUM5_PUBLIC_KEY_BYTES);
    assert_eq!(sk.len(), DILITHIUM5_SECRET_KEY_BYTES);
    assert_eq!(pk.len(), crystals_dilithium::dilithium5::PUBLICKEYBYTES);
    assert_eq!(sk.len(), crystals_dilithium::dilithium5::SECRETKEYBYTES);

    let mut tx = fixed_transaction("Alice", "Bob", 1, 1);
    tx.sign_transaction(&sk).unwrap();
    let signature = tx.signature.clone().unwrap();
    assert_eq!(signature.len(), DILITHIUM5_SIGNATURE_BYTES);
    assert_eq!(signature.len(), crystals_dilithium::dilithium5::SIGNBYTES);
}

#[test]
fn signing_is_deterministic_and_matches_the_scheme_directly() {
    let (pk, sk) = generate_keypair();
    let mut tx1 = fixed_transaction("Alice", "Bob", 9, 42);
    let mut tx2 = fixed_transaction("Alice", "Bob", 9, 42);
    tx1.sign_transaction(&sk).unwrap();
    tx2.sign_transaction(&sk).unwrap();
    assert_eq!(tx1.signature, tx2.signature);

    let scheme_pk = crystals_dilithium::dilithium5::PublicKey::from_bytes(&pk).unwrap();
    let digest = tx1.calculate_hash();
    let signature = tx1.signature.clone().unwrap();
    assert!(scheme_pk.verify(&digest, &signature));
    assert!(tx1.is_valid(&pk).unwrap());
}

#[test]
fn error_messages_name_the_condition() {
    assert_eq!(
        TrustFabricError::NoPendingTransactions.message(),
        "no pending transactions to mine"
    );
    assert_eq!(
        TrustFabricError::InvalidTransaction("transaction is not signed".to_string()).message(),
        "invalid transaction: transaction is not signed"
    );
}
