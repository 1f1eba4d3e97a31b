//! Tests of the hashing, encoding, Merkle and transaction building blocks.

use e_ledger_rust_core::sha256_hex;
use e_ledger_rust_core::u64_to_dec;
use e_ledger_rust_core::Block;
use e_ledger_rust_core::Blockchain;
use e_ledger_rust_core::Role;
use e_ledger_rust_core::Transaction;
use e_ledger_rust_core::merkle::merkle_root;

#[test]
fn sha256_hex_known_vectors() {
    // Published SHA-256 test vectors, rendered in lowercase hex.
    assert_eq!(
        sha256_hex("abc"),
        "ba7816bf8f01cfea414140de5dae2223b00361a396177a9cb410ff61f20015ad"
    );
    assert_eq!(
        sha256_hex(""),
        "e3b0c44298fc1c149afbf4c8996fb92427ae41e4649b934ca495991b7852b855"
    );
}

#[test]
fn u64_to_dec_exact() {
    assert_eq!(u64_to_dec(0), "0");
    assert_eq!(u64_to_dec(7), "7");
    assert_eq!(u64_to_dec(90210), "90210");
    assert_eq!(u64_to_dec(u64::MAX), "18446744073709551615");
}

#[test]
fn merkle_empty_commits_to_zero_sentinel() {
    let leaves: Vec<String> = Vec::new();
    assert_eq!(merkle_root(&leaves), "0".repeat(64));
}

#[test]
fn merkle_single_leaf_is_its_own_root() {
    let leaves = vec![sha256_hex("only")];
    assert_eq!(merkle_root(&leaves), sha256_hex("only"));
}

#[test]
fn merkle_is_deterministic() {
    let leaves = vec![sha256_hex("a"), sha256_hex("b"), sha256_hex("c")];
    assert_eq!(merkle_root(&leaves), merkle_root(&leaves));
}

#[test]
fn merkle_is_order_sensitive() {
    let forward = vec![sha256_hex("a"), sha256_hex("b")];
    let backward = vec![sha256_hex("b"), sha256_hex("a")];
    assert_ne!(merkle_root(&forward), merkle_root(&backward));
}

#[test]
fn merkle_pairs_left_to_right_and_duplicates_odd_leaf() {
    let l0 = sha256_hex("a");
    let l1 = sha256_hex("b");
    let l2 = sha256_hex("c");
    let leaves = vec![l0.clone(), l1.clone(), l2.clone()];
    let p0 = sha256_hex(&format!("{}{}", l0, l1));
    let p1 = sha256_hex(&format!("{}{}", l2, l2));
    let expected = sha256_hex(&format!("{}{}", p0, p1));
    assert_eq!(merkle_root(&leaves), expected);
}

#[test]
fn transaction_fields_derive_from_content() {
    let tx = Transaction::new_with_timestamp(
        "{\"k\":1}".to_string(),
        "1234567890123".to_string(),
        "2024-01-01T00:00:00+00:00".to_string(),
    );
    let expected_id = sha256_hex("{\"k\":1}12345678901232024-01-01T00:00:00+00:00");
    assert_eq!(tx.id, expected_id);
    let expected_sig = sha256_hex(&format!(
        "{}{}{}",
        expected_id, "1234567890123", "2024-01-01T00:00:00+00:00"
    ));
    assert_eq!(tx.signature, expected_sig);
    let expected_leaf = sha256_hex(&format!(
        "{}{}{}{}",
        tx.id, tx.actor_gln, tx.timestamp, tx.signature
    ));
    assert_eq!(tx.calculate_hash(), expected_leaf);
}

#[test]
fn metadata_enters_the_content_hash() {
    let mut tx = Transaction::new_with_timestamp(
        "{}".to_string(),
        "1234567890123".to_string(),
        "2024-01-01T00:00:00+00:00".to_string(),
    );
    let bare = tx.calculate_hash();
    tx.metadata.push(("batch".to_string(), "A-123".to_string()));
    let with_pair = tx.calculate_hash();
    assert_ne!(bare, with_pair);

    // canonical rendering: key:value pairs joined in key order
    let expected = e_ledger_rust_core::sha256_hex(&format!(
        "{}{}{}{}batch:A-123;",
        tx.id, tx.actor_gln, tx.timestamp, tx.signature
    ));
    assert_eq!(with_pair, expected);
}

#[test]
fn equal_canonical_metadata_hashes_equal() {
    let make = |pairs: &[(&str, &str)]| {
        let mut tx = Transaction::new_with_timestamp(
            "{}".to_string(),
            "1234567890123".to_string(),
            "2024-01-01T00:00:00+00:00".to_string(),
        );
        for (k, v) in pairs {
            tx.metadata.push((k.to_string(), v.to_string()));
        }
        tx
    };
    // both records hold the same mapping in its canonical (key-sorted) form
    let t1 = make(&[("a", "1"), ("b", "2")]);
    let t2 = make(&[("a", "1"), ("b", "2")]);
    assert_eq!(t1.calculate_hash(), t2.calculate_hash());
}

#[test]
fn digests_are_64_lowercase_hex_chars() {
    let tx = Transaction::new("{\"v\":1}".to_string(), "1".to_string());
    let hash = tx.calculate_hash();
    assert_eq!(hash.len(), 64);
    assert!(hash.chars().all(|c| c.is_ascii_hexdigit() && !c.is_ascii_uppercase()));
}

#[test]
fn fresh_transaction_passes_signature_check() {
    let ledger = Blockchain::new();
    let tx = Transaction::new("{\"v\":true}".to_string(), "9876543210987".to_string());
    assert!(ledger.verify_transaction_signature(&tx));
}

#[test]
fn tampered_transaction_fails_signature_check() {
    let ledger = Blockchain::new();
    let mut tx = Transaction::new("{\"v\":true}".to_string(), "9876543210987".to_string());
    tx.payload = "{\"v\":false}".to_string();
    assert!(!ledger.verify_transaction_signature(&tx));
}

#[test]
fn single_transaction_block_commits_to_its_leaf() {
    let tx = Transaction::new("{\"n\":3}".to_string(), "1111111111111".to_string());
    let leaf = tx.calculate_hash();
    let root = Block::calculate_merkle_root(&vec![tx]);
    assert_eq!(root, leaf);
}

#[test]
fn block_hash_recomputes_and_tag_covers_hash() {
    let tx = Transaction::new("{\"n\":3}".to_string(), "1111111111111".to_string());
    let block = Block::new(5, vec![tx], "0".repeat(64), "V1".to_string());
    assert_eq!(block.hash, block.calculate_hash());
    assert_eq!(block.nonce, 0);
    assert_eq!(
        block.validator_signature,
        sha256_hex(&format!("{}{}", block.hash, block.validator))
    );
}

#[test]
fn role_names_are_canonical() {
    assert_eq!(Role::Admin.to_string(), "ADMIN");
    assert_eq!(Role::Manager.to_string(), "MANAGER");
    assert_eq!(Role::Employee.to_string(), "EMPLOYEE");
    assert_eq!(Role::Supplier.to_string(), "SUPPLIER");
    assert_eq!(Role::Distributor.to_string(), "DISTRIBUTOR");
    assert_eq!(Role::Retailer.to_string(), "RETAILER");
}
