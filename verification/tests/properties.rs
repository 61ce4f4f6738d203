//! Further checks: the genesis sentinel, digest behaviour, Merkle edge
//! cases, the difficulty predicate, decimal rendering, chain linking and
//! the export format.

use blockchain_sandbox::Amount;
use blockchain_sandbox::BlockHeader;
use blockchain_sandbox::Chain;
use blockchain_sandbox::Transaction;
use blockchain_sandbox::digits::dec_i64;
use blockchain_sandbox::digits::dec_u64;
use blockchain_sandbox::get_merkle;
use blockchain_sandbox::hash_header;
use blockchain_sandbox::hash_str;
use blockchain_sandbox::hash_transaction;
use blockchain_sandbox::hex_to_string;
use blockchain_sandbox::meets_difficulty;
use blockchain_sandbox::proof_of_work;

fn amount(v: f32) -> Amount {
    Amount::from_bits(v.to_bits())
}

#[test]
fn genesis_previous_hash_is_all_zero() {
    let chain = Chain::new("Tilt".to_string(), 1, None);
    let sentinel = "0".repeat(64);
    let genesis = &chain.get_chain()[0];
    assert_eq!(genesis.get_header().get_previous_hash(), sentinel);
}

#[test]
fn difficulty_zero_accepts_immediately() {
    let chain = Chain::new("Tilt".to_string(), 0, None);
    assert_eq!(chain.get_chain().len(), 1);
    assert_eq!(chain.get_chain()[0].get_header().get_nonce(), 0);
}

#[test]
fn hash_differs_for_different_transactions() {
    let a = Transaction {
        sender: "Alice".to_string(),
        receiver: "Bob".to_string(),
        amount: amount(10.0),
    };
    let b = Transaction {
        sender: "Alice".to_string(),
        receiver: "Bob".to_string(),
        amount: amount(11.0),
    };
    assert_ne!(hash_transaction(&a), hash_transaction(&b));
}

#[test]
fn sha256_digest_of_known_string() {
    assert_eq!(
        hash_str("abc"),
        "ba7816bf8f01cfea414140de5dae2223b00361a396177a9cb410ff61f20015ad"
    );
}

#[test]
fn hex_of_empty_and_single_byte() {
    let empty: Vec<u8> = Vec::new();
    assert_eq!(hex_to_string(&empty), "");
    assert_eq!(hex_to_string(&[0x5a]), "5a");
}

#[test]
fn decimal_rendering_exact_values() {
    assert_eq!(dec_u64(0), "0");
    assert_eq!(dec_u64(907), "907");
    assert_eq!(dec_u64(u64::MAX), "18446744073709551615");
    assert_eq!(dec_i64(-42), "-42");
    assert_eq!(dec_i64(i64::MIN), "-9223372036854775808");
}

#[test]
fn merkle_root_is_deterministic_and_nonempty() {
    let txs = vec![
        Transaction {
            sender: "a".to_string(),
            receiver: "b".to_string(),
            amount: amount(1.5),
        },
        Transaction {
            sender: "b".to_string(),
            receiver: "c".to_string(),
            amount: amount(2.5),
        },
    ];
    let first = get_merkle(&txs);
    let second = get_merkle(&txs);
    assert_eq!(first.len(), 64);
    assert_eq!(first, second);
}

#[test]
fn merkle_of_single_transaction_pairs_it_with_itself() {
    let txs = vec![Transaction {
        sender: "a".to_string(),
        receiver: "b".to_string(),
        amount: amount(1.0),
    }];
    let leaf = hash_transaction(&txs[0]);
    let mut doubled = leaf.clone();
    doubled.push_str(&leaf);
    assert_eq!(get_merkle(&txs), hash_str(&doubled));
}

#[test]
fn meets_difficulty_checks_the_zero_prefix() {
    assert!(meets_difficulty("0abc", 1));
    assert!(!meets_difficulty("a0bc", 1));
    assert!(meets_difficulty("whatever", 0));
    assert!(meets_difficulty("", 0));
    assert!(!meets_difficulty("00", 5));
}

#[test]
fn proof_of_work_accepts_at_once_for_difficulty_zero() {
    let mut header = BlockHeader {
        timestamp: 0,
        nonce: 7,
        previous_hash: String::new(),
        merkle: String::new(),
        difficulty: 0,
    };
    let digest = proof_of_work(&mut header).expect("an empty prefix is accepted");
    assert_eq!(header.nonce, 7);
    assert_eq!(digest, hash_header(&header));
}

#[test]
fn proof_of_work_finds_a_zero_prefix() {
    let mut header = BlockHeader {
        timestamp: 11,
        nonce: 0,
        previous_hash: "0".repeat(64),
        merkle: "0".repeat(64),
        difficulty: 1,
    };
    let digest = proof_of_work(&mut header).expect("a one-character prefix is found quickly");
    assert!(digest.starts_with('0'));
    assert_eq!(digest, hash_header(&header));
}

#[test]
fn scenario_two_transactions_then_block() {
    let mut chain = Chain::new("Tilt".to_string(), 1, None);
    chain.add_transaction("Alice".to_string(), "Bob".to_string(), amount(10.0));
    chain.add_transaction("Bob".to_string(), "Alice".to_string(), amount(20.0));
    chain.generate_new_block();
    assert_eq!(chain.get_chain().len(), 2);
    assert_eq!(chain.get_chain().last().unwrap().count, 3);
    assert_eq!(chain.current_transactions.len(), 0);
}

#[test]
fn genesis_reward_transaction_uses_supplied_reward() {
    let chain = Chain::new("Tilt".to_string(), 1, Some(amount(12.5)));
    let genesis = &chain.get_chain()[0];
    assert_eq!(genesis.get_transactions()[0].amount.to_bits(), 12.5f32.to_bits());
}

#[test]
fn reward_transaction_heads_every_block() {
    let mut chain = Chain::new("Tilt".to_string(), 1, None);
    chain.add_transaction("Alice".to_string(), "Bob".to_string(), amount(10.0));
    chain.generate_new_block();
    let block = chain.get_chain().last().unwrap();
    let reward = &block.get_transactions()[0];
    assert_eq!(reward.sender, "Root");
    assert_eq!(reward.receiver, "Tilt");
    assert_eq!(reward.amount.to_bits(), 50.0f32.to_bits());
    assert_eq!(block.get_transactions()[1].sender, "Alice");
}

#[test]
fn three_blocks_link_back_correctly() {
    let mut chain = Chain::new("Tilt".to_string(), 1, None);
    chain.generate_new_block();
    chain.generate_new_block();
    chain.generate_new_block();
    let blocks = chain.get_chain();
    assert_eq!(blocks.len(), 4);
    for i in 1..blocks.len() {
        assert_eq!(
            blocks[i].get_header().get_previous_hash(),
            hash_header(blocks[i - 1].get_header())
        );
    }
}

#[test]
fn export_shows_header_count_and_transactions() {
    let chain = Chain::new("Tilt".to_string(), 1, None);
    let json = chain.get_latest_block_json().expect("the genesis block is there");
    assert!(json.starts_with("{\"header\":{\"timestamp\":"));
    assert!(json.contains("\"count\":1"));
    assert!(json.contains("\"sender\":\"Root\""));
    assert!(json.contains("\"receiver\":\"Tilt\""));
    assert!(json.ends_with("]}"));
    assert_eq!(chain.get_blocks_json(), vec![json]);
}
