use sutantra_node::blockchain::engine::{BlockchainEngine, EngineStep};
use sutantra_node::blockchain::{BlockchainCommand, BlockchainConfig, BlockchainEvent, LedgerError};
use sutantra_node::integration::StreamQualityMetrics;
use sutantra_node::time::Timestamp;

fn engine() -> BlockchainEngine {
    BlockchainEngine::new(BlockchainConfig {
        port: 30333,
        is_validator: true,
        data_dir: "./data/blockchain_30333".to_string(),
    })
}

fn s(text: &str) -> String {
    text.to_string()
}

fn balance(engine: &BlockchainEngine, address: &str) -> Option<u64> {
    engine.state.accounts.get(&s(address)).map(|account| account.balance)
}

fn nonce(engine: &BlockchainEngine, address: &str) -> u64 {
    engine.state.accounts.get(&s(address)).unwrap().nonce
}

fn paid_until(engine: &BlockchainEngine, viewer: &str, stream: &str) -> Option<i64> {
    engine
        .state
        .accounts
        .get(&s(viewer))
        .and_then(|account| account.stream_access.get(&s(stream)))
        .map(|grant| grant.paid_until.millis)
}

fn total(engine: &BlockchainEngine) -> u64 {
    engine
        .state
        .accounts
        .keys()
        .iter()
        .map(|address| engine.state.accounts.get(address).unwrap().balance)
        .sum()
}

fn at(millis: i64) -> Timestamp {
    Timestamp::from_millis(millis)
}

const MINUTE: i64 = 60_000;
const T0: i64 = 1_700_000_000_000;

/// A ledger with stream `s1` at 10 per minute by `c1`, and `v1` holding 100.
fn funded() -> BlockchainEngine {
    let mut e = engine();
    e.register_stream(s("s1"), s("c1"), s("Show"), Some(s("A show")), 10, at(T0)).unwrap();
    e.transfer_tokens(s("genesis"), s("v1"), 100).unwrap();
    e
}

#[test]
fn genesis_holds_the_supply() {
    let e = engine();
    assert_eq!(balance(&e, "genesis"), Some(1_000_000_000));
    assert_eq!(nonce(&e, "genesis"), 0);
    assert_eq!(e.state.accounts.len(), 1);
    assert_eq!(e.state.streams.len(), 0);
    assert_eq!(e.state.chain_id, "sutantra-testnet");
    assert_eq!(e.get_status(), (0, 0, 0));
    assert!(e.is_validator);
    assert!(e.produces_blocks());
    assert_eq!(e.current_block, 0);
    assert_eq!(e.config.port, 30333);
}

#[test]
fn a_light_configuration_produces_no_blocks() {
    let e = BlockchainEngine::new(BlockchainConfig {
        port: 1,
        is_validator: false,
        data_dir: s("d"),
    });
    assert!(!e.produces_blocks());
}

#[test]
fn registration_records_the_stream_and_its_creator() {
    let mut e = engine();
    let outcome = e.register_stream(s("s1"), s("c1"), s("Show"), Some(s("A show")), 10, at(T0));
    assert_eq!(
        outcome,
        Ok(Some(BlockchainEvent::StreamRegistered { stream_id: s("s1"), creator: s("c1") }))
    );
    let stream = e.state.streams.get(&s("s1")).unwrap();
    assert_eq!(stream.stream_id, "s1");
    assert_eq!(stream.creator, "c1");
    assert_eq!(stream.title, "Show");
    assert_eq!(stream.description, Some(s("A show")));
    assert_eq!(stream.price_per_minute, 10);
    assert_eq!(stream.created_at, at(T0));
    assert!(!stream.is_active);
    assert_eq!(stream.total_earnings, 0);
    assert_eq!(stream.total_viewers, 0);
    assert_eq!(stream.total_duration_minutes, 0);
    let creator = e.state.accounts.get(&s("c1")).unwrap();
    assert_eq!(creator.address, "c1");
    assert_eq!(creator.balance, 0);
    assert_eq!(creator.nonce, 0);
    assert_eq!(creator.created_streams, vec![s("s1")]);
    assert_eq!(creator.stream_access.len(), 0);
}

#[test]
fn registration_by_an_existing_account_appends_to_its_streams() {
    let mut e = engine();
    e.register_stream(s("a"), s("genesis"), s("A"), None, 1, at(T0)).unwrap();
    e.register_stream(s("b"), s("genesis"), s("B"), None, 2, at(T0)).unwrap();
    let genesis = e.state.accounts.get(&s("genesis")).unwrap();
    assert_eq!(genesis.created_streams, vec![s("a"), s("b")]);
    assert_eq!(genesis.balance, 1_000_000_000);
    assert_eq!(e.state.accounts.len(), 1);
    assert_eq!(e.state.streams.keys(), vec![s("a"), s("b")]);
}

#[test]
fn registration_is_idempotent() {
    let mut e = engine();
    e.register_stream(s("s1"), s("c1"), s("Show"), None, 10, at(T0)).unwrap();
    let once = e.clone();
    for n in 0..5 {
        let again = e.register_stream(s("s1"), s("c1"), s("Show"), None, 10, at(T0 + n));
        assert_eq!(again, Ok(None));
        assert_eq!(e, once);
    }
    let other = e.register_stream(s("s1"), s("someone"), s("Other"), Some(s("x")), 99, at(T0 + 9));
    assert_eq!(other, Ok(None));
    assert_eq!(e, once);
}

#[test]
fn registration_at_price_zero_is_refused() {
    let mut e = engine();
    let before = e.clone();
    let outcome = e.register_stream(s("free"), s("c1"), s("Free"), None, 0, at(T0));
    assert_eq!(outcome, Err(LedgerError::ZeroPrice { stream_id: s("free") }));
    assert_eq!(e, before);
    assert!(!outcome.unwrap_err().is_not_found());
}

#[test]
fn registration_of_a_taken_id_at_price_zero_is_ignored() {
    let mut e = funded();
    let before = e.clone();
    assert_eq!(e.register_stream(s("s1"), s("c1"), s("Show"), None, 0, at(T0)), Ok(None));
    assert_eq!(e, before);
}

#[test]
fn pay_per_minute_end_to_end() {
    let mut e = engine();
    let t0 = at(T0);
    let registered = e.register_stream(s("s1"), s("c1"), s("Show"), None, 10, t0);
    assert_eq!(
        registered,
        Ok(Some(BlockchainEvent::StreamRegistered { stream_id: s("s1"), creator: s("c1") }))
    );
    assert_eq!(balance(&e, "c1"), Some(0));
    assert_eq!(e.transfer_tokens(s("genesis"), s("v1"), 100), Ok(()));
    assert_eq!(balance(&e, "v1"), Some(100));
    assert_eq!(balance(&e, "genesis"), Some(999_999_900));

    let paid = e.process_payment(s("s1"), s("v1"), 50, t0);
    assert_eq!(
        paid,
        Ok(Some(BlockchainEvent::PaymentProcessed {
            stream_id: s("s1"),
            viewer: s("v1"),
            amount: 50
        }))
    );
    assert_eq!(balance(&e, "v1"), Some(50));
    assert_eq!(balance(&e, "c1"), Some(50));
    let viewer = e.state.accounts.get(&s("v1")).unwrap();
    assert_eq!(viewer.nonce, 1);
    let grant = viewer.stream_access.get(&s("s1")).unwrap();
    assert_eq!(grant.stream_id, "s1");
    assert_eq!(grant.paid_until, at(T0 + 5 * MINUTE));
    assert_eq!(grant.total_paid, 50);
    assert_eq!(grant.access_granted_at, t0);
    assert_eq!(e.state.streams.get(&s("s1")).unwrap().total_earnings, 50);

    assert_eq!(
        e.check_access(s("s1"), s("v1"), t0),
        BlockchainEvent::AccessGranted { stream_id: s("s1"), viewer: s("v1") }
    );
    assert_eq!(
        e.check_access(s("s1"), s("v1"), at(T0 + 5 * MINUTE - 1)),
        BlockchainEvent::AccessGranted { stream_id: s("s1"), viewer: s("v1") }
    );
    assert_eq!(
        e.check_access(s("s1"), s("v1"), at(T0 + 5 * MINUTE)),
        BlockchainEvent::AccessRevoked {
            stream_id: s("s1"),
            viewer: s("v1"),
            reason: s("payment required")
        }
    );
    assert_eq!(
        e.check_access(s("s1"), s("v1"), at(T0 + 6 * MINUTE)),
        BlockchainEvent::AccessRevoked {
            stream_id: s("s1"),
            viewer: s("v1"),
            reason: s("payment required")
        }
    );
}

#[test]
fn payment_for_unknown_stream_is_not_found() {
    let mut e = engine();
    let before = e.clone();
    let outcome = e.process_payment(s("nope"), s("genesis"), 5, at(0));
    assert_eq!(outcome, Err(LedgerError::StreamNotFound { stream_id: s("nope") }));
    assert!(outcome.unwrap_err().is_not_found());
    assert_eq!(e, before);
}

#[test]
fn payment_by_unknown_viewer_is_not_found() {
    let mut e = funded();
    let before = e.clone();
    let outcome = e.process_payment(s("s1"), s("ghost"), 5, at(T0));
    assert_eq!(outcome, Err(LedgerError::AccountNotFound { address: s("ghost") }));
    assert!(outcome.unwrap_err().is_not_found());
    assert_eq!(e, before);
}

#[test]
fn underfunded_payment_changes_nothing() {
    let mut e = funded();
    let before = e.clone();
    assert_eq!(e.process_payment(s("s1"), s("v1"), 101, at(T0)), Ok(None));
    assert_eq!(e, before);
    assert_eq!(balance(&e, "v1"), Some(100));
    assert_eq!(balance(&e, "c1"), Some(0));
    assert_eq!(e.state.streams.get(&s("s1")).unwrap().total_earnings, 0);
    assert_eq!(paid_until(&e, "v1", "s1"), None);
    assert_eq!(nonce(&e, "v1"), 0);
}

#[test]
fn exact_balance_can_be_spent() {
    let mut e = funded();
    assert!(e.process_payment(s("s1"), s("v1"), 100, at(T0)).unwrap().is_some());
    assert_eq!(balance(&e, "v1"), Some(0));
    assert_eq!(balance(&e, "c1"), Some(100));
    assert_eq!(paid_until(&e, "v1", "s1"), Some(T0 + 10 * MINUTE));
}

#[test]
fn paid_minutes_truncate() {
    let mut e = funded();
    e.process_payment(s("s1"), s("v1"), 29, at(T0)).unwrap();
    assert_eq!(paid_until(&e, "v1", "s1"), Some(T0 + 2 * MINUTE));
    let mut e = funded();
    e.process_payment(s("s1"), s("v1"), 9, at(T0)).unwrap();
    assert_eq!(paid_until(&e, "v1", "s1"), Some(T0));
    assert_eq!(balance(&e, "v1"), Some(91));
    assert_eq!(
        e.check_access(s("s1"), s("v1"), at(T0)),
        BlockchainEvent::AccessRevoked {
            stream_id: s("s1"),
            viewer: s("v1"),
            reason: s("payment required")
        }
    );
}

#[test]
fn payment_of_zero_is_a_payment() {
    let mut e = funded();
    let outcome = e.process_payment(s("s1"), s("v1"), 0, at(T0));
    assert_eq!(
        outcome,
        Ok(Some(BlockchainEvent::PaymentProcessed {
            stream_id: s("s1"),
            viewer: s("v1"),
            amount: 0
        }))
    );
    assert_eq!(nonce(&e, "v1"), 1);
    assert_eq!(balance(&e, "v1"), Some(100));
    assert_eq!(paid_until(&e, "v1", "s1"), Some(T0));
}

#[test]
fn successive_payments_extend_the_grant() {
    let mut e = funded();
    e.process_payment(s("s1"), s("v1"), 50, at(T0)).unwrap();
    assert_eq!(paid_until(&e, "v1", "s1"), Some(T0 + 5 * MINUTE));
    // A later payment that reaches further moves the end forward.
    e.process_payment(s("s1"), s("v1"), 30, at(T0 + 4 * MINUTE)).unwrap();
    assert_eq!(paid_until(&e, "v1", "s1"), Some(T0 + 7 * MINUTE));
    // One that does not reach as far leaves the end where it is.
    e.process_payment(s("s1"), s("v1"), 10, at(T0 + 5 * MINUTE)).unwrap();
    assert_eq!(paid_until(&e, "v1", "s1"), Some(T0 + 7 * MINUTE));
    let viewer = e.state.accounts.get(&s("v1")).unwrap();
    let grant = viewer.stream_access.get(&s("s1")).unwrap();
    assert_eq!(grant.total_paid, 90);
    assert_eq!(grant.access_granted_at, at(T0 + 5 * MINUTE));
    assert_eq!(viewer.stream_access.len(), 1);
    assert_eq!(viewer.nonce, 3);
    assert_eq!(viewer.balance, 10);
    assert_eq!(balance(&e, "c1"), Some(90));
    assert_eq!(e.state.streams.get(&s("s1")).unwrap().total_earnings, 90);
}

#[test]
fn a_payment_made_with_an_earlier_clock_does_not_shorten_the_grant() {
    let mut e = funded();
    e.process_payment(s("s1"), s("v1"), 50, at(T0)).unwrap();
    e.process_payment(s("s1"), s("v1"), 50, at(T0 - 60 * MINUTE)).unwrap();
    assert_eq!(paid_until(&e, "v1", "s1"), Some(T0 + 5 * MINUTE));
}

#[test]
fn a_creator_can_pay_for_the_own_stream() {
    let mut e = funded();
    e.transfer_tokens(s("genesis"), s("c1"), 40).unwrap();
    let supply = total(&e);
    e.process_payment(s("s1"), s("c1"), 30, at(T0)).unwrap();
    assert_eq!(balance(&e, "c1"), Some(40));
    assert_eq!(nonce(&e, "c1"), 1);
    assert_eq!(paid_until(&e, "c1", "s1"), Some(T0 + 3 * MINUTE));
    assert_eq!(e.state.streams.get(&s("s1")).unwrap().total_earnings, 30);
    assert_eq!(total(&e), supply);
}

#[test]
fn grants_are_kept_per_stream() {
    let mut e = funded();
    e.register_stream(s("s2"), s("c2"), s("Other"), None, 5, at(T0)).unwrap();
    e.process_payment(s("s1"), s("v1"), 20, at(T0)).unwrap();
    e.process_payment(s("s2"), s("v1"), 20, at(T0)).unwrap();
    assert_eq!(paid_until(&e, "v1", "s1"), Some(T0 + 2 * MINUTE));
    assert_eq!(paid_until(&e, "v1", "s2"), Some(T0 + 4 * MINUTE));
    assert_eq!(balance(&e, "c1"), Some(20));
    assert_eq!(balance(&e, "c2"), Some(20));
    let viewer = e.state.accounts.get(&s("v1")).unwrap();
    assert_eq!(viewer.stream_access.keys(), vec![s("s1"), s("s2")]);
}

#[test]
fn access_without_a_grant_is_revoked() {
    let e = funded();
    let revoked = |stream: &str, viewer: &str| BlockchainEvent::AccessRevoked {
        stream_id: s(stream),
        viewer: s(viewer),
        reason: s("payment required"),
    };
    assert_eq!(e.check_access(s("s1"), s("v1"), at(T0)), revoked("s1", "v1"));
    assert_eq!(e.check_access(s("s1"), s("nobody"), at(T0)), revoked("s1", "nobody"));
    assert_eq!(e.check_access(s("none"), s("v1"), at(T0)), revoked("none", "v1"));
}

#[test]
fn transfer_moves_value_and_counts_the_nonce() {
    let mut e = engine();
    assert_eq!(e.transfer_tokens(s("genesis"), s("a"), 10), Ok(()));
    assert_eq!(e.transfer_tokens(s("genesis"), s("a"), 5), Ok(()));
    assert_eq!(e.transfer_tokens(s("a"), s("b"), 15), Ok(()));
    assert_eq!(balance(&e, "genesis"), Some(999_999_985));
    assert_eq!(balance(&e, "a"), Some(0));
    assert_eq!(balance(&e, "b"), Some(15));
    assert_eq!(nonce(&e, "genesis"), 2);
    assert_eq!(nonce(&e, "a"), 1);
    assert_eq!(nonce(&e, "b"), 0);
    assert_eq!(e.state.accounts.keys(), vec![s("genesis"), s("a"), s("b")]);
    assert_eq!(total(&e), 1_000_000_000);
}

#[test]
fn transfer_to_oneself_only_counts_the_nonce() {
    let mut e = engine();
    assert_eq!(e.transfer_tokens(s("genesis"), s("genesis"), 77), Ok(()));
    assert_eq!(balance(&e, "genesis"), Some(1_000_000_000));
    assert_eq!(nonce(&e, "genesis"), 1);
    assert_eq!(e.state.accounts.len(), 1);
}

#[test]
fn transfer_beyond_the_balance_fails() {
    let mut e = funded();
    let before = e.clone();
    assert_eq!(e.transfer_tokens(s("v1"), s("c1"), 101), Err(LedgerError::InsufficientBalance));
    assert_eq!(e, before);
    assert!(!LedgerError::InsufficientBalance.is_not_found());
}

#[test]
fn transfer_from_an_unknown_sender_fails() {
    let mut e = engine();
    let before = e.clone();
    assert_eq!(e.transfer_tokens(s("ghost"), s("a"), 0), Err(LedgerError::InsufficientBalance));
    assert_eq!(e, before);
}

#[test]
fn balances_survive_any_mix_of_payments_and_transfers() {
    let mut e = funded();
    e.register_stream(s("s2"), s("v1"), s("Mine"), None, 3, at(T0)).unwrap();
    let names = ["genesis", "v1", "c1", "x", "y"];
    let streams = ["s1", "s2", "missing"];
    let mut seed: u64 = 12345;
    for round in 0..400 {
        seed = seed.wrapping_mul(6364136223846793005).wrapping_add(1442695040888963407);
        let from = names[(seed >> 8) as usize % names.len()];
        let to = names[(seed >> 16) as usize % names.len()];
        let stream = streams[(seed >> 24) as usize % streams.len()];
        let amount = (seed >> 32) % 150;
        let now = at(T0 + round * 1000);
        if seed % 2 == 0 {
            let command = BlockchainCommand::Transfer { from: s(from), to: s(to), amount };
            assert!(e.within_limits(&command, now));
            let _ = e.handle_command(command, now);
        } else {
            let command =
                BlockchainCommand::ProcessPayment { stream_id: s(stream), viewer: s(from), amount };
            assert!(e.within_limits(&command, now));
            let _ = e.handle_command(command, now);
        }
        assert_eq!(total(&e), 1_000_000_000);
    }
    assert!(e.state.accounts.len() <= names.len());
}

#[test]
fn stream_start_marks_the_stream_live() {
    let mut e = funded();
    e.record_stream_start(s("s1"), at(T0 + 5));
    assert!(e.state.streams.get(&s("s1")).unwrap().is_active);
    let before = e.clone();
    e.record_stream_start(s("unknown"), at(T0 + 5));
    assert_eq!(e, before);
    e.record_stream_start(s("s1"), at(T0 + 9));
    assert_eq!(e, before);
}

fn metrics() -> StreamQualityMetrics {
    StreamQualityMetrics {
        bandwidth_mbps_bits: 2.5f64.to_bits(),
        latency_ms: 45,
        packet_loss_percent_bits: 0.1f64.to_bits(),
        resolution: s("1280x720"),
        fps: 30,
    }
}

#[test]
fn quality_reports_are_accepted_and_dropped() {
    let mut e = funded();
    let before = e.clone();
    e.record_stream_quality(s("s1"), metrics());
    assert_eq!(e, before);
    let outcome = e.handle_command(
        BlockchainCommand::ReportStreamQuality { stream_id: s("s1"), metrics: metrics() },
        at(T0),
    );
    assert_eq!(outcome, Ok(None));
    assert_eq!(e, before);
}

#[test]
fn commands_are_dispatched_to_their_handlers() {
    let mut e = engine();
    let now = at(T0);
    assert_eq!(
        e.handle_command(
            BlockchainCommand::RegisterStream {
                stream_id: s("s1"),
                creator: s("c1"),
                title: s("Show"),
                description: None,
                price_per_minute: 10,
            },
            now
        ),
        Ok(Some(BlockchainEvent::StreamRegistered { stream_id: s("s1"), creator: s("c1") }))
    );
    assert_eq!(
        e.handle_command(
            BlockchainCommand::Transfer { from: s("genesis"), to: s("v1"), amount: 100 },
            now
        ),
        Ok(None)
    );
    assert_eq!(
        e.handle_command(
            BlockchainCommand::Transfer { from: s("v1"), to: s("c1"), amount: 1000 },
            now
        ),
        Err(LedgerError::InsufficientBalance)
    );
    assert_eq!(
        e.handle_command(
            BlockchainCommand::ProcessPayment { stream_id: s("s1"), viewer: s("v1"), amount: 50 },
            now
        ),
        Ok(Some(BlockchainEvent::PaymentProcessed {
            stream_id: s("s1"),
            viewer: s("v1"),
            amount: 50
        }))
    );
    assert_eq!(
        e.handle_command(
            BlockchainCommand::ProcessPayment { stream_id: s("zz"), viewer: s("v1"), amount: 50 },
            now
        ),
        Err(LedgerError::StreamNotFound { stream_id: s("zz") })
    );
    assert_eq!(
        e.handle_command(
            BlockchainCommand::CheckAccess { stream_id: s("s1"), viewer: s("v1") },
            now
        ),
        Ok(Some(BlockchainEvent::AccessGranted { stream_id: s("s1"), viewer: s("v1") }))
    );
    assert_eq!(
        e.handle_command(
            BlockchainCommand::CheckAccess { stream_id: s("s1"), viewer: s("c1") },
            now
        ),
        Ok(Some(BlockchainEvent::AccessRevoked {
            stream_id: s("s1"),
            viewer: s("c1"),
            reason: s("payment required")
        }))
    );
    assert_eq!(
        e.handle_command(
            BlockchainCommand::RecordStreamStart { stream_id: s("s1"), timestamp: now },
            now
        ),
        Ok(None)
    );
    assert!(e.state.streams.get(&s("s1")).unwrap().is_active);
    let before = e.clone();
    assert_eq!(
        e.handle_command(
            BlockchainCommand::RecordStreamEnd {
                stream_id: s("s1"),
                timestamp: now,
                duration_seconds: 60
            },
            now
        ),
        Ok(None)
    );
    assert_eq!(e, before);
}

#[test]
fn limits_are_detected_before_a_command_is_applied() {
    let mut e = funded();
    let now = at(T0);
    let pay = |amount| BlockchainCommand::ProcessPayment {
        stream_id: s("s1"),
        viewer: s("v1"),
        amount,
    };
    assert!(e.within_limits(&pay(50), now));
    // A payment that is not accepted is always within limits.
    assert!(e.within_limits(&pay(u64::MAX), now));
    assert!(e.payment_within_limits(&s("nope"), &s("v1"), 1, now));
    // The end of the paid window must be an instant.
    assert!(!e.within_limits(&pay(50), at(i64::MAX - 5 * MINUTE + 1)));
    assert!(e.within_limits(&pay(50), at(i64::MAX - 5 * MINUTE)));
    assert!(e.within_limits(&pay(9), at(i64::MAX)));
    // The viewer's nonce must be able to count the payment.
    e.state.accounts.value_at_mut(e.state.accounts.position(&s("v1")).unwrap()).nonce = u64::MAX;
    assert!(!e.within_limits(&pay(50), now));
    assert!(!e.transfer_within_limits(&s("v1"), 1));
    assert!(e.transfer_within_limits(&s("v1"), 101));
    assert!(e.transfer_within_limits(&s("ghost"), 1));
    e.state.accounts.value_at_mut(e.state.accounts.position(&s("v1")).unwrap()).nonce = 0;
    // The stream's earnings must be able to hold the amount.
    e.state.streams.value_at_mut(0).total_earnings = u64::MAX - 49;
    assert!(!e.within_limits(&pay(50), now));
    assert!(e.within_limits(&pay(49), now));
    e.state.streams.value_at_mut(0).total_earnings = 0;
    // And so must the grant's total.
    e.process_payment(s("s1"), s("v1"), 10, now).unwrap();
    let viewer_at = e.state.accounts.position(&s("v1")).unwrap();
    e.state.accounts.value_at_mut(viewer_at).stream_access.value_at_mut(0).total_paid = u64::MAX - 9;
    assert!(!e.within_limits(&pay(10), now));
    assert!(e.within_limits(&pay(9), now));
    // Other commands have no limits.
    assert!(e.within_limits(&BlockchainCommand::CheckAccess { stream_id: s("a"), viewer: s("b") }, now));
}

#[test]
fn step_stops_when_the_mailbox_is_closed() {
    let mut e = engine();
    let before = e.clone();
    assert_eq!(e.step(None), EngineStep::Stopped);
    assert_eq!(e, before);
}

#[test]
fn step_handles_a_command_at_the_current_time() {
    let mut e = funded();
    let earlier = chrono::Utc::now().timestamp_millis();
    let step = e.step(Some(BlockchainCommand::ProcessPayment {
        stream_id: s("s1"),
        viewer: s("v1"),
        amount: 50,
    }));
    let later = chrono::Utc::now().timestamp_millis();
    assert_eq!(
        step,
        EngineStep::Handled {
            outcome: Ok(Some(BlockchainEvent::PaymentProcessed {
                stream_id: s("s1"),
                viewer: s("v1"),
                amount: 50
            }))
        }
    );
    let viewer = e.state.accounts.get(&s("v1")).unwrap();
    let grant = viewer.stream_access.get(&s("s1")).unwrap();
    assert!(earlier <= grant.access_granted_at.millis);
    assert!(grant.access_granted_at.millis <= later);
    assert!(grant.access_granted_at.millis > T0);
    assert_eq!(grant.paid_until.millis, grant.access_granted_at.millis + 5 * MINUTE);
    let check = e.step(Some(BlockchainCommand::CheckAccess { stream_id: s("s1"), viewer: s("v1") }));
    assert_eq!(
        check,
        EngineStep::Handled {
            outcome: Ok(Some(BlockchainEvent::AccessGranted {
                stream_id: s("s1"),
                viewer: s("v1")
            }))
        }
    );
    let failed = e.step(Some(BlockchainCommand::Transfer { from: s("v1"), to: s("x"), amount: 51 }));
    assert_eq!(failed, EngineStep::Handled { outcome: Err(LedgerError::InsufficientBalance) });
}

#[test]
fn step_sets_aside_what_is_beyond_limits() {
    let mut e = funded();
    e.state.accounts.value_at_mut(e.state.accounts.position(&s("v1")).unwrap()).nonce = u64::MAX;
    let before = e.clone();
    let step = e.step(Some(BlockchainCommand::Transfer { from: s("v1"), to: s("x"), amount: 1 }));
    assert_eq!(step, EngineStep::BeyondLimits);
    assert_eq!(e, before);
}

#[test]
fn errors_read_as_they_are_logged() {
    assert_eq!(LedgerError::StreamNotFound { stream_id: s("s9") }.message(), "Stream s9 not found");
    assert_eq!(LedgerError::AccountNotFound { address: s("bob") }.message(), "Account bob not found");
    assert_eq!(LedgerError::InsufficientBalance.message(), "Insufficient balance");
    assert_eq!(
        LedgerError::ZeroPrice { stream_id: s("s9") }.message(),
        "Stream s9 cannot be priced at zero"
    );
}
