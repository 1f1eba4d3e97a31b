//! End-to-end ledger scenarios: genesis, commits, verification, tampering,
//! authorization failures, rotation and the networking shell.

use e_ledger_rust_core::Blockchain;
use e_ledger_rust_core::DistributedLedger;
use e_ledger_rust_core::LedgerError;
use e_ledger_rust_core::NetworkPeer;
use e_ledger_rust_core::Transaction;

fn register(ledger: &mut Blockchain, gln: &str) {
    ledger
        .add_validator(gln.to_string(), format!("pk-{}", gln), "validator".to_string())
        .unwrap();
}

#[test]
fn genesis_ledger_shape() {
    let ledger = Blockchain::new();
    assert_eq!(ledger.chain.len(), 1);
    assert_eq!(ledger.chain[0].index, 0);
    assert_eq!(ledger.chain[0].previous_hash, "0".repeat(64));
    assert_eq!(ledger.chain[0].validator, "SYSTEM_VALIDATOR");
    assert_eq!(ledger.chain[0].transactions.len(), 1);
    assert_eq!(ledger.chain[0].transactions[0].actor_gln, "0000000000000");
    assert!(ledger.pending_transactions.is_empty());
    assert_eq!(ledger.threshold, 1);
}

#[test]
fn fresh_ledger_verifies() {
    let ledger = Blockchain::new();
    assert!(ledger.is_chain_valid());
}

#[test]
fn end_to_end_single_commit() {
    let mut ledger = Blockchain::new();
    register(&mut ledger, "V1");

    let payload = "{\"sender\":\"A\",\"receiver\":\"B\",\"amount\":10}".to_string();
    let tx = Transaction::new(payload, "A".to_string());
    let leaf = tx.calculate_hash();
    ledger.add_transaction(tx);
    assert_eq!(ledger.pending_transactions.len(), 1);

    ledger.mine_pending_transactions("V1".to_string()).unwrap();

    assert_eq!(ledger.chain.len(), 2);
    assert_eq!(ledger.chain[1].index, 1);
    assert_eq!(ledger.chain[1].previous_hash, ledger.chain[0].hash);
    assert_eq!(ledger.chain[1].merkle_root, leaf);
    assert_eq!(ledger.chain[1].validator, "V1");

    // the pool now holds exactly the synthetic reward for the author
    assert_eq!(ledger.pending_transactions.len(), 1);
    let reward = &ledger.pending_transactions[0];
    assert_eq!(reward.actor_gln, "SYSTEM");
    assert_eq!(
        reward.payload,
        "{\"amount\":1,\"recipient\":\"V1\",\"type\":\"REWARD\"}"
    );

    assert!(ledger.is_chain_valid());
}

#[test]
fn chains_built_by_commits_keep_verifying() {
    let mut ledger = Blockchain::new();
    register(&mut ledger, "V1");
    register(&mut ledger, "V2");
    for round in 0..4u32 {
        let tx = Transaction::new(format!("{{\"round\":{}}}", round), "A".to_string());
        ledger.add_transaction(tx);
        let author = if round % 2 == 0 { "V1" } else { "V2" };
        ledger.mine_pending_transactions(author.to_string()).unwrap();
        assert!(ledger.is_chain_valid());
    }
    assert_eq!(ledger.chain.len(), 5);
}

#[test]
fn tampered_nonce_breaks_verification() {
    let mut ledger = committed_ledger();
    ledger.chain[1].nonce = 1;
    assert!(!ledger.is_chain_valid());
}

#[test]
fn tampered_payload_breaks_verification() {
    let mut ledger = committed_ledger();
    ledger.chain[1].transactions[0].payload = "{\"amount\":1000000}".to_string();
    assert!(!ledger.is_chain_valid());
}

#[test]
fn tampered_stored_hash_breaks_verification() {
    let mut ledger = committed_ledger();
    ledger.chain[1].hash = "f".repeat(64);
    assert!(!ledger.is_chain_valid());
}

#[test]
fn tampered_link_breaks_verification() {
    let mut ledger = committed_ledger();
    ledger.chain[1].previous_hash = "f".repeat(64);
    assert!(!ledger.is_chain_valid());
}

#[test]
fn tampered_validator_tag_breaks_verification() {
    let mut ledger = committed_ledger();
    ledger.chain[1].validator_signature = "f".repeat(64);
    assert!(!ledger.is_chain_valid());
}

#[test]
fn tampered_transaction_tag_breaks_verification() {
    let mut ledger = committed_ledger();
    ledger.chain[1].transactions[0].signature = "f".repeat(64);
    assert!(!ledger.is_chain_valid());
}

fn committed_ledger() -> Blockchain {
    let mut ledger = Blockchain::new();
    register(&mut ledger, "V1");
    let tx = Transaction::new("{\"amount\":10}".to_string(), "A".to_string());
    ledger.add_transaction(tx);
    ledger.mine_pending_transactions("V1".to_string()).unwrap();
    assert!(ledger.is_chain_valid());
    ledger
}

#[test]
fn unauthorized_author_is_rejected_and_pool_untouched() {
    let mut ledger = Blockchain::new();
    register(&mut ledger, "V1");
    let tx = Transaction::new("{\"amount\":10}".to_string(), "A".to_string());
    ledger.add_transaction(tx);

    let result = ledger.mine_pending_transactions("V2".to_string());
    assert_eq!(result, Err(LedgerError::UnauthorizedAuthor));
    assert_eq!(ledger.pending_transactions.len(), 1);
    assert_eq!(ledger.chain.len(), 1);
}

#[test]
fn inactive_author_is_rejected() {
    let mut ledger = Blockchain::new();
    register(&mut ledger, "V1");
    register(&mut ledger, "V2");
    ledger.set_active(&"V2".to_string(), false).unwrap();
    let tx = Transaction::new("{\"amount\":10}".to_string(), "A".to_string());
    ledger.add_transaction(tx);

    let result = ledger.mine_pending_transactions("V2".to_string());
    assert_eq!(result, Err(LedgerError::UnauthorizedAuthor));
    assert_eq!(ledger.chain.len(), 1);
}

#[test]
fn deactivating_the_only_validator_stops_commits() {
    let mut ledger = Blockchain::new();
    register(&mut ledger, "V1");
    let tx = Transaction::new("{\"amount\":10}".to_string(), "A".to_string());
    ledger.add_transaction(tx);
    ledger.set_active(&"V1".to_string(), false).unwrap();

    let result = ledger.mine_pending_transactions("V1".to_string());
    assert_eq!(result, Err(LedgerError::NoActiveValidators));
    assert_eq!(ledger.chain.len(), 1);
    assert_eq!(ledger.pending_transactions.len(), 1);
}

#[test]
fn empty_pool_cannot_be_committed() {
    let mut ledger = Blockchain::new();
    register(&mut ledger, "V1");
    let result = ledger.mine_pending_transactions("V1".to_string());
    assert_eq!(result, Err(LedgerError::EmptyPendingPool));
    assert_eq!(ledger.chain.len(), 1);
}

#[test]
fn duplicate_validator_is_rejected() {
    let mut ledger = Blockchain::new();
    register(&mut ledger, "V1");
    let result =
        ledger.add_validator("V1".to_string(), "pk2".to_string(), "validator".to_string());
    assert_eq!(result, Err(LedgerError::DuplicateValidator));
    assert_eq!(ledger.validators.len(), 1);
}

#[test]
fn unknown_validator_cannot_be_toggled() {
    let mut ledger = Blockchain::new();
    let result = ledger.set_active(&"V9".to_string(), false);
    assert_eq!(result, Err(LedgerError::UnknownValidator));
}

#[test]
fn invalid_transactions_are_silently_dropped() {
    let mut ledger = Blockchain::new();
    let mut tx = Transaction::new("{\"amount\":10}".to_string(), "A".to_string());
    tx.payload = "{\"amount\":99}".to_string();
    ledger.add_transaction(tx);
    assert!(ledger.pending_transactions.is_empty());
}

#[test]
fn rotation_cycles_through_active_validators_in_order() {
    let mut ledger = Blockchain::new();
    register(&mut ledger, "A");
    register(&mut ledger, "B");
    register(&mut ledger, "C");
    let picks: Vec<String> = (0..4)
        .map(|_| ledger.get_next_validator().unwrap().gln)
        .collect();
    assert_eq!(picks, vec!["A", "B", "C", "A"]);
}

#[test]
fn rotation_skips_inactive_validators() {
    let mut ledger = Blockchain::new();
    register(&mut ledger, "A");
    register(&mut ledger, "B");
    register(&mut ledger, "C");
    ledger.set_active(&"B".to_string(), false).unwrap();
    let picks: Vec<String> = (0..3)
        .map(|_| ledger.get_next_validator().unwrap().gln)
        .collect();
    assert_eq!(picks, vec!["A", "C", "A"]);
}

#[test]
fn rotation_with_no_active_validators_yields_nothing() {
    let mut ledger = Blockchain::new();
    register(&mut ledger, "A");
    ledger.set_active(&"A".to_string(), false).unwrap();
    assert!(ledger.get_next_validator().is_none());
}

#[test]
fn quorum_threshold_tracks_active_majority() {
    let mut ledger = Blockchain::new();
    register(&mut ledger, "A");
    assert_eq!(ledger.threshold, 1);
    register(&mut ledger, "B");
    assert_eq!(ledger.threshold, 2);
    register(&mut ledger, "C");
    assert_eq!(ledger.threshold, 2);
    ledger.set_active(&"C".to_string(), false).unwrap();
    assert_eq!(ledger.threshold, 2);
    ledger.set_active(&"B".to_string(), false).unwrap();
    assert_eq!(ledger.threshold, 1);
}

#[test]
fn balance_counts_authored_transactions() {
    let mut ledger = Blockchain::new();
    register(&mut ledger, "V1");
    for i in 0..3u32 {
        let tx = Transaction::new(format!("{{\"i\":{}}}", i), "A".to_string());
        ledger.add_transaction(tx);
    }
    let tx = Transaction::new("{\"i\":9}".to_string(), "B".to_string());
    ledger.add_transaction(tx);
    ledger.mine_pending_transactions("V1".to_string()).unwrap();

    assert_eq!(ledger.get_balance_of_address(&"A".to_string()), 3);
    assert_eq!(ledger.get_balance_of_address(&"B".to_string()), 1);
    assert_eq!(ledger.get_balance_of_address(&"0000000000000".to_string()), 1);
    assert_eq!(ledger.get_balance_of_address(&"nobody".to_string()), 0);
}

#[test]
fn latest_block_is_the_chain_tail() {
    let ledger = committed_ledger();
    let latest = ledger.get_latest_block().unwrap();
    assert_eq!(latest.index, 1);
    assert_eq!(latest.hash, ledger.chain[1].hash);
}

#[test]
fn distributed_ledger_runs_the_demo_flow() {
    let mut ledger = DistributedLedger::new();
    ledger.add_validator("1234567890123".to_string());
    ledger.add_validator("2345678901234".to_string());
    ledger.add_validator("1234567890123".to_string());
    assert_eq!(ledger.consensus_state.validators.len(), 2);
    assert_eq!(ledger.consensus_state.threshold, 2);

    ledger.add_peer("http://node1.example:8080".to_string());
    ledger.add_peer("http://node1.example:8080".to_string());
    assert_eq!(ledger.peers.len(), 1);

    ledger
        .add_poa_validator("V1".to_string(), "pk".to_string(), "validator".to_string())
        .unwrap();
    let tx = Transaction::new("{\"amount\":100}".to_string(), "1234567890123".to_string());
    ledger.validate_and_broadcast_transaction(tx).unwrap();
    ledger.mine_with_poa("V1".to_string()).unwrap();
    assert_eq!(ledger.blockchain.chain.len(), 2);
    assert!(ledger.blockchain.is_chain_valid());
}

#[test]
fn broadcast_rejects_empty_transaction_id() {
    let mut ledger = DistributedLedger::new();
    let mut tx = Transaction::new("{\"amount\":1}".to_string(), "A".to_string());
    tx.id = String::new();
    let result = ledger.validate_and_broadcast_transaction(tx);
    assert_eq!(result, Err(LedgerError::InvalidTransactionId));
    assert!(ledger.blockchain.pending_transactions.is_empty());
}

#[test]
fn network_peer_carries_its_description() {
    let peer = NetworkPeer::new(
        "http://node1.example:8080".to_string(),
        "3456789012345".to_string(),
        true,
    );
    assert_eq!(peer.address, "http://node1.example:8080");
    assert_eq!(peer.gln, "3456789012345");
    assert!(peer.is_validator);
    // a freshly generated v4 identifier in its hyphenated form
    assert_eq!(peer.id.len(), 36);
}

#[test]
fn balance_is_never_negative() {
    let ledger = Blockchain::new();
    assert!(ledger.get_balance_of_address(&"nobody".to_string()) >= 0);
}
