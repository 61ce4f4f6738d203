//! The core test suite for the chain, its hashing and its exports.

use blockchain_sandbox::Amount;
use blockchain_sandbox::Chain;
use blockchain_sandbox::Transaction;
use blockchain_sandbox::get_merkle;
use blockchain_sandbox::hash_transaction;
use blockchain_sandbox::hex_to_string;

fn amount(v: f32) -> Amount {
    Amount::from_bits(v.to_bits())
}

fn reward_value(chain: &Chain) -> f32 {
    f32::from_bits(chain.get_reward().to_bits())
}

#[test]
fn new_chain_has_genesis_block() {
    let chain = Chain::new("Tilt".to_string(), 1, None);
    assert_eq!(chain.get_chain().len(), 1);
}

#[test]
fn new_chain_uses_default_reward_when_not_provided() {
    let chain = Chain::new("Tilt".to_string(), 1, None);
    assert!((reward_value(&chain) - 50.0).abs() < f32::EPSILON);
}

#[test]
fn new_chain_uses_custom_reward_when_provided() {
    let chain = Chain::new("Tilt".to_string(), 1, Some(amount(100.0)));
    assert!((reward_value(&chain) - 100.0).abs() < f32::EPSILON);
}

#[test]
fn transaction_added_successfully() {
    let mut chain = Chain::new("Tilt".to_string(), 1, None);
    let result = chain.add_transaction("Alice".to_string(), "Bob".to_string(), amount(10.0));
    assert!(result);
    assert_eq!(chain.current_transactions.len(), 1);
}

#[test]
fn block_generation_includes_pending_transactions() {
    let mut chain = Chain::new("Tilt".to_string(), 1, None);
    chain.add_transaction("Alice".to_string(), "Bob".to_string(), amount(10.0));
    chain.add_transaction("Bob".to_string(), "Alice".to_string(), amount(20.0));

    let initial_chain_len = chain.get_chain().len();
    chain.generate_new_block();

    // The new block should contain the two transactions plus the reward transaction
    assert_eq!(chain.get_chain().len(), initial_chain_len + 1);
    assert_eq!(chain.get_chain().last().unwrap().count, 3);
    // Current transactions should be cleared
    assert_eq!(chain.current_transactions.len(), 0);
}

#[test]
fn hash_produces_consistent_output_for_same_input() {
    let transaction = Transaction {
        sender: "Alice".to_string(),
        receiver: "Bob".to_string(),
        amount: amount(10.0),
    };

    let hash1 = hash_transaction(&transaction);
    let hash2 = hash_transaction(&transaction);

    assert_eq!(hash1, hash2);
}

#[test]
fn hex_to_string_converts_bytes_to_hex() {
    let bytes = vec![0, 1, 10, 255];
    let hex = hex_to_string(&bytes);
    assert_eq!(hex, "00010aff");
}

#[test]
fn last_hash_returns_hash_of_last_block() {
    let mut chain = Chain::new("Tilt".to_string(), 1, None);
    let last_hash = chain.last_hash();

    // Generate a new block and check that last_hash changes
    chain.generate_new_block();
    let new_last_hash = chain.last_hash();

    assert_ne!(last_hash, new_last_hash);
}

#[test]
fn update_difficulty_changes_chain_difficulty() {
    let mut chain = Chain::new("Tilt".to_string(), 1, None);
    chain.update_difficulty(2);
    assert_eq!(chain.get_difficulty(), 2);
}

#[test]
fn update_reward_changes_miner_reward() {
    let mut chain = Chain::new("Tilt".to_string(), 1, None);
    chain.update_reward(amount(75.0));
    assert!((reward_value(&chain) - 75.0).abs() < f32::EPSILON);
}

#[test]
fn get_merkle_handles_odd_number_of_transactions() {
    let transactions = vec![
        Transaction {
            sender: "a".to_string(),
            receiver: "b".to_string(),
            amount: amount(1.0),
        },
        Transaction {
            sender: "c".to_string(),
            receiver: "d".to_string(),
            amount: amount(2.0),
        },
        Transaction {
            sender: "e".to_string(),
            receiver: "f".to_string(),
            amount: amount(3.0),
        },
    ];

    let merkle = get_merkle(&transactions);
    assert!(!merkle.is_empty());
}

#[test]
fn get_latest_block_json_returns_none_for_empty_chain() {
    let mut chain = Chain::new("Tilt".to_string(), 1, None);
    chain.chains.clear(); // Artificially clear the chain
    assert!(chain.get_latest_block_json().is_none());
}

#[test]
fn get_blocks_json_returns_expected_number_of_blocks() {
    let mut chain = Chain::new("Tilt".to_string(), 1, None);
    chain.generate_new_block();
    chain.generate_new_block();

    let blocks_json = chain.get_blocks_json();
    assert_eq!(blocks_json.len(), 3); // Genesis + 2 new blocks
}
