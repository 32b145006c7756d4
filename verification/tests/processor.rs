use taikoscope::messages::{L1Header, L2Header, TaikoEvent};
use taikoscope::bytes::{AddressBytes, HashBytes};
use taikoscope::l1_data_cost::ReceiptFees;
use taikoscope::processor::{
    average_cost_per_batch, calculate_orphaned_blocks, l2_head_event, message_outcome,
    next_operator_failure_is_reported, plan_reorg, prove_cost_rows, route_event,
    should_insert_preconf_data, transaction_cost, EventRoute, MessageOutcome, ProcessedHeaders,
};

#[test]
fn average_cost_per_batch_even_split() {
    let cost = average_cost_per_batch(100, 4);
    assert_eq!(cost, 25);
}

#[test]
fn average_cost_per_batch_rounds_down() {
    let cost = average_cost_per_batch(10, 3);
    assert_eq!(cost, 3);
}

#[test]
fn average_cost_per_batch_of_no_batches_is_zero() {
    assert_eq!(average_cost_per_batch(100, 0), 0);
}

#[test]
fn calculate_orphaned_blocks_correct_behavior() {
    let result = calculate_orphaned_blocks(10, 8, 2);
    assert_eq!(result, vec![9, 10], "Should return orphaned blocks [9,10]");

    let result2 = calculate_orphaned_blocks(5, 4, 1);
    assert_eq!(result2, vec![5], "Should return orphaned blocks [5]");

    let result3 = calculate_orphaned_blocks(15, 12, 3);
    assert_eq!(result3, vec![13, 14, 15], "Should return orphaned blocks [13,14,15]");

    let result4 = calculate_orphaned_blocks(10, 12, 0);
    let expected4: Vec<u64> = vec![];
    assert_eq!(result4, expected4, "Should return no orphaned blocks when new_head >= old_head");

    let result5 = calculate_orphaned_blocks(5, 4, 1);
    assert_eq!(result5, vec![5], "Should return [5] when old_head=5, new_head=4");
}

#[test]
fn fifo_set_behavior() {
    let mut fifo = ProcessedHeaders::new();
    let hash1 = HashBytes([1u8; 32]);
    let hash2 = HashBytes([2u8; 32]);
    let hash3 = HashBytes([3u8; 32]);
    assert!(!fifo.check_and_record(hash1));
    assert!(!fifo.check_and_record(hash2));
    assert!(!fifo.check_and_record(hash3));
    assert_eq!(fifo.len(), 3);
    assert!(fifo.contains(&hash1));
    assert!(fifo.contains(&hash2));
    assert!(fifo.contains(&hash3));

    let mut limited = ProcessedHeaders::with_capacity(5);
    for i in 1..=10u8 {
        assert!(!limited.check_and_record(HashBytes([i; 32])));
    }
    assert_eq!(limited.len(), 5);
    assert!(!limited.contains(&HashBytes([1u8; 32])));
    assert!(!limited.contains(&HashBytes([5u8; 32])));
    assert!(limited.contains(&HashBytes([6u8; 32])));
    assert!(limited.contains(&HashBytes([10u8; 32])));
}

#[test]
fn duplicate_header_is_reported_and_not_stored_twice() {
    let mut fifo = ProcessedHeaders::with_capacity(3);
    let h = HashBytes([7u8; 32]);
    assert!(!fifo.check_and_record(h));
    assert!(fifo.check_and_record(h));
    assert_eq!(fifo.len(), 1);
}

#[test]
fn message_outcomes() {
    assert!(matches!(message_outcome(true, 0), MessageOutcome::Ack));
    assert!(matches!(message_outcome(true, 3), MessageOutcome::Ack));
    assert!(matches!(message_outcome(false, 0), MessageOutcome::Retry { retries: 1, delay_ms: 200 }));
    assert!(matches!(message_outcome(false, 2), MessageOutcome::Retry { retries: 3, delay_ms: 800 }));
    assert!(matches!(message_outcome(false, 3), MessageOutcome::Nak { delay_secs: 30 }));
}

#[test]
fn event_routes() {
    assert_eq!(route_event(true, true), EventRoute::WriteToDatabase);
    assert_eq!(route_event(true, false), EventRoute::MissingWriter);
    assert_eq!(route_event(false, true), EventRoute::LogAndDrop);
}

#[test]
fn preconf_decisions() {
    assert!(should_insert_preconf_data(true, false));
    assert!(should_insert_preconf_data(false, true));
    assert!(!should_insert_preconf_data(false, false));
    assert!(!next_operator_failure_is_reported(64));
    assert!(next_operator_failure_is_reported(65));
}

fn receipt(gas: u64, price: u128, blob_gas: Option<u64>, blob_price: Option<u128>) -> ReceiptFees {
    ReceiptFees { gas_used: gas, effective_gas_price: price, blob_gas_used: blob_gas, blob_gas_price: blob_price, to: None }
}

#[test]
fn transaction_cost_skips_zero_hash() {
    let r = receipt(1000, 50, Some(200), Some(10));
    assert_eq!(transaction_cost(&HashBytes([0u8; 32]), Some(r)), None);
    assert_eq!(transaction_cost(&HashBytes([1u8; 32]), Some(r)), Some(52000));
    assert_eq!(transaction_cost(&HashBytes([1u8; 32]), None), None);
}

#[test]
fn prove_cost_split_across_batches() {
    let rows = prove_cost_rows(7, &[1, 2, 3], 100);
    assert_eq!(rows, vec![(7, 1, 33), (7, 2, 33), (7, 3, 33)]);
}

#[test]
fn l2_head_event_uses_stats_or_defaults() {
    let seq = AddressBytes([9u8; 20]);
    let e = l2_head_event(5, HashBytes([1u8; 32]), 1000, seq, Some(10), Some((300, 2, 3500)));
    assert_eq!(e.sum_gas_used, 300);
    assert_eq!(e.sum_tx, 2);
    assert_eq!(e.sum_priority_fee, 3500);
    assert_eq!(e.sum_base_fee, 3000);
    let d = l2_head_event(5, HashBytes([1u8; 32]), 1000, seq, None, None);
    assert_eq!((d.sum_gas_used, d.sum_tx, d.sum_priority_fee, d.sum_base_fee), (0, 0, 0, 0));
}

#[test]
fn reorg_plan_records_previous_sequencer_and_orphans() {
    let prev = AddressBytes([1u8; 20]);
    let new = AddressBytes([2u8; 20]);
    let plan = plan_reorg(Some((10, prev)), 10, 8, new, 2, None);
    assert_eq!(plan.reorg_record.0, 8);
    assert_eq!(plan.reorg_record.1, 2);
    assert_eq!(plan.reorg_record.2, prev);
    assert_eq!(plan.reorg_record.3, new);
    assert_eq!(plan.orphaned_blocks, vec![9, 10]);
    assert!(plan.orphaned_hash.is_none());

    let plan = plan_reorg(None, 10, 10, new, 0, Some(HashBytes([3u8; 32])));
    assert_eq!(plan.reorg_record.2, AddressBytes([0u8; 20]));
    assert!(plan.orphaned_blocks.is_empty());
    assert_eq!(plan.orphaned_hash, Some((HashBytes([3u8; 32]), 10)));
}

#[test]
fn logged_events_only_record_l2_header_hashes() {
    let mut seen = ProcessedHeaders::with_capacity(2);
    let l2 = |n: u64, b: u8| {
        TaikoEvent::L2Header(L2Header {
            number: n,
            hash: HashBytes([b; 32]),
            parent_hash: HashBytes([0u8; 32]),
            timestamp: 0,
            gas_used: 0,
            beneficiary: AddressBytes([0u8; 20]),
            base_fee_per_gas: 0,
        })
    };
    let l1 = TaikoEvent::L1Header(L1Header { number: 1, hash: HashBytes([9u8; 32]), slot: 0, timestamp: 0 });
    assert!(!seen.note_event(&l1));
    assert_eq!(seen.len(), 0);
    assert!(!seen.note_event(&l2(1, 1)));
    assert!(seen.note_event(&l2(1, 1)));
    assert!(!seen.note_event(&l2(2, 2)));
    assert!(!seen.note_event(&l2(3, 3)));
    assert_eq!(seen.len(), 2);
    assert!(!seen.contains(&HashBytes([1u8; 32])));
    assert!(seen.note_event(&l2(3, 3)));
}
