use sutantra_node::blockchain::engine::BlockchainEngine;
use sutantra_node::blockchain::{BlockchainConfig, BlockchainEvent};

fn validator() -> BlockchainEngine {
    BlockchainEngine::new(BlockchainConfig {
        port: 30333,
        is_validator: true,
        data_dir: "./data/blockchain_30333".to_string(),
    })
}

#[test]
fn no_tick_no_block() {
    let e = validator();
    assert_eq!(e.get_status(), (0, 0, 0));
}

#[test]
fn the_first_block_is_number_one() {
    let mut e = validator();
    let event = e.produce_block();
    assert_eq!(
        event,
        BlockchainEvent::BlockProduced { block_number: 1, block_hash: "block_1".to_string() }
    );
    assert_eq!(e.get_status(), (1, 0, 0));
    assert_eq!(e.current_block, 1);
}

#[test]
fn finality_trails_the_tip_by_one_block() {
    let mut e = validator();
    for n in 1..=250u64 {
        let event = e.produce_block();
        assert_eq!(
            event,
            BlockchainEvent::BlockProduced { block_number: n, block_hash: format!("block_{}", n) }
        );
        let (best, finalized, pending) = e.get_status();
        assert_eq!(best, n);
        assert_eq!(finalized, n - 1);
        assert_eq!(pending, 0);
        assert!(finalized <= best);
    }
}

#[test]
fn blocks_leave_accounts_alone() {
    let mut e = validator();
    e.transfer_tokens("genesis".to_string(), "a".to_string(), 5).unwrap();
    let accounts = e.state.accounts.clone();
    e.produce_block();
    e.produce_block();
    assert_eq!(e.state.accounts, accounts);
}

#[test]
fn the_producer_goes_on_while_its_events_are_published() {
    let mut e = validator();
    let first = e.production_step(true);
    assert_eq!(
        first,
        Some(BlockchainEvent::BlockProduced { block_number: 1, block_hash: "block_1".to_string() })
    );
    let second = e.production_step(true);
    assert_eq!(
        second,
        Some(BlockchainEvent::BlockProduced { block_number: 2, block_hash: "block_2".to_string() })
    );
    assert_eq!(e.get_status(), (2, 1, 0));
}

#[test]
fn the_producer_ends_when_an_event_cannot_be_published() {
    let mut e = validator();
    e.production_step(true);
    let before = e.clone();
    assert_eq!(e.production_step(false), None);
    assert_eq!(e, before);
}

#[test]
fn the_producer_ends_when_the_counter_is_used_up() {
    let mut e = validator();
    e.current_block = u64::MAX;
    e.state.best_block = u64::MAX;
    e.state.finalized_block = u64::MAX - 1;
    let before = e.clone();
    assert_eq!(e.production_step(true), None);
    assert_eq!(e, before);
}

#[test]
fn the_last_block_has_all_its_digits() {
    let mut e = validator();
    e.current_block = u64::MAX - 1;
    e.state.best_block = u64::MAX - 1;
    e.state.finalized_block = u64::MAX - 2;
    assert_eq!(
        e.produce_block(),
        BlockchainEvent::BlockProduced {
            block_number: u64::MAX,
            block_hash: "block_18446744073709551615".to_string()
        }
    );
    assert_eq!(e.get_status(), (u64::MAX, u64::MAX - 1, 0));
}
