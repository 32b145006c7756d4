use taikoscope::bytes::AddressBytes;
use taikoscope::extractor::{classify_log, decode_batches_verified, LogSource};
use taikoscope::bytes::HashBytes;
use taikoscope::config_check::{migration_step, MigrationStep};
use taikoscope::gap_detection::{
    after_event_handled, after_receipt_fetch, gap_step, pick_decoded_event, DecodedEvent, GapStep,
    HandledStep, ReceiptStep,
};
use taikoscope::messages::{
    BatchProposedWrapper, BatchesProvedWrapper, BatchesVerifiedWrapper,
    ForcedInclusionProcessedWrapper,
};
use taikoscope::retries::{
    after_failed_attempt, rpc_error_is_retryable, RateLimitConnRefusedRetryPolicy, RetryStep,
    RpcErrorShape, Strategy,
};
use taikoscope::incident::{find_open_incident, IncidentSummary};
use taikoscope::processor::{plan_monitors, MonitorPlan};

#[test]
fn batches_verified_data_is_read_by_position() {
    let mut data = vec![0u8; 64];
    data[24..32].copy_from_slice(&0x0102_0304_0506_0708u64.to_be_bytes());
    for (i, b) in data[32..64].iter_mut().enumerate() {
        *b = i as u8;
    }
    let (v, n) = decode_batches_verified(&data, Some(99));
    assert_eq!(v.batch_id, 0x0102_0304_0506_0708);
    let expected: Vec<u8> = (0..32u8).collect();
    assert_eq!(v.block_hash.to_vec(), expected);
    assert_eq!(n, 99);

    let (v, n) = decode_batches_verified(&data[..40], None);
    assert_eq!(v.batch_id, 0x0102_0304_0506_0708);
    assert_eq!(v.block_hash, [0u8; 32]);
    assert_eq!(n, 0);

    let (v, _) = decode_batches_verified(&data[..31], None);
    assert_eq!(v.batch_id, 0);
}

#[test]
fn logs_are_classified_by_emitter() {
    let inbox = AddressBytes([1u8; 20]);
    let wrapper = AddressBytes([2u8; 20]);
    let other = AddressBytes([3u8; 20]);
    assert_eq!(classify_log(true, &inbox, &inbox, &wrapper), LogSource::Removed);
    assert_eq!(classify_log(false, &inbox, &inbox, &wrapper), LogSource::Inbox);
    assert_eq!(classify_log(false, &wrapper, &inbox, &wrapper), LogSource::Wrapper);
    assert_eq!(classify_log(false, &other, &inbox, &wrapper), LogSource::Unrelated);
}

#[test]
fn find_open_incident_for_component_filters_correctly() {
    let list = vec![
        IncidentSummary { id: "inc1".into(), component_ids: vec!["compX".into()] },
        IncidentSummary { id: "inc2".into(), component_ids: vec!["comp1".into()] },
    ];
    assert_eq!(find_open_incident(&list, "comp1"), Some("inc2".to_owned()));
    assert_eq!(find_open_incident(&list, "compY"), None);
    assert_eq!(find_open_incident(&vec![], "comp1"), None);
}

#[test]
fn monitor_plans() {
    assert_eq!(
        plan_monitors(false, true, true),
        MonitorPlan { public_rpc: false, database_monitors: false, warn_no_reader: false }
    );
    assert_eq!(
        plan_monitors(true, true, false),
        MonitorPlan { public_rpc: true, database_monitors: false, warn_no_reader: true }
    );
    assert_eq!(
        plan_monitors(true, false, true),
        MonitorPlan { public_rpc: false, database_monitors: true, warn_no_reader: false }
    );
}

#[test]
fn gap_steps() {
    assert_eq!(gap_step(0, true), GapStep::NoGaps);
    assert_eq!(gap_step(3, true), GapStep::Recheck);
    assert_eq!(gap_step(3, false), GapStep::DryRun);
}

fn proposed(batch_id: u64) -> BatchProposedWrapper {
    BatchProposedWrapper {
        batch_id,
        last_block_id: batch_id * 10,
        proposed_in: 5,
        l1_tx_hash: HashBytes([1u8; 32]),
    }
}

fn proved() -> BatchesProvedWrapper {
    BatchesProvedWrapper { batch_ids: vec![7, 8], l1_block_number: 9, l1_tx_hash: HashBytes([2u8; 32]) }
}

fn verified() -> BatchesVerifiedWrapper {
    BatchesVerifiedWrapper {
        batch_id: 6,
        block_hash: HashBytes([3u8; 32]),
        l1_block_number: 10,
        l1_tx_hash: HashBytes([4u8; 32]),
    }
}

fn forced() -> ForcedInclusionProcessedWrapper {
    ForcedInclusionProcessedWrapper { blob_hash: HashBytes([5u8; 32]) }
}

#[test]
fn inbox_logs_prefer_proposals_then_proofs_then_verifications() {
    let r = pick_decoded_event(LogSource::Inbox, Some(proposed(3)), Some(proved()), Some(verified()), Some(forced()));
    assert!(matches!(r, Some(DecodedEvent::BatchProposed(b)) if b.batch_id == 3));
    let r = pick_decoded_event(LogSource::Inbox, None, Some(proved()), Some(verified()), Some(forced()));
    assert!(matches!(r, Some(DecodedEvent::BatchesProved(p)) if p.batch_ids == vec![7, 8]));
    let r = pick_decoded_event(LogSource::Inbox, None, None, Some(verified()), Some(forced()));
    assert!(matches!(r, Some(DecodedEvent::BatchesVerified(v)) if v.batch_id == 6));
    let r = pick_decoded_event(LogSource::Inbox, None, None, None, Some(forced()));
    assert!(r.is_none());
}

#[test]
fn wrapper_logs_only_decode_forced_inclusions() {
    let r = pick_decoded_event(LogSource::Wrapper, Some(proposed(3)), None, None, Some(forced()));
    assert!(matches!(r, Some(DecodedEvent::ForcedInclusionProcessed(f)) if f.blob_hash == HashBytes([5u8; 32])));
    let r = pick_decoded_event(LogSource::Wrapper, Some(proposed(3)), Some(proved()), Some(verified()), None);
    assert!(r.is_none());
}

#[test]
fn removed_and_unrelated_logs_are_skipped() {
    for source in [LogSource::Removed, LogSource::Unrelated] {
        let r = pick_decoded_event(source, Some(proposed(3)), Some(proved()), Some(verified()), Some(forced()));
        assert!(r.is_none());
    }
}

#[test]
fn rpc_error_retry_verdicts() {
    assert!(rpc_error_is_retryable(&RpcErrorShape::Transport { retry_err: true }));
    assert!(!rpc_error_is_retryable(&RpcErrorShape::Transport { retry_err: false }));
    assert!(rpc_error_is_retryable(&RpcErrorShape::ErrorResp { retry_err: true }));
    assert!(!rpc_error_is_retryable(&RpcErrorShape::ErrorResp { retry_err: false }));
    assert!(rpc_error_is_retryable(&RpcErrorShape::NullResp));
    assert!(!rpc_error_is_retryable(&RpcErrorShape::SerError));
    assert!(!rpc_error_is_retryable(&RpcErrorShape::Other));
    assert!(!rpc_error_is_retryable(&RpcErrorShape::DeserError { payload_retry: Some(false), wrapped_retry: Some(true) }));
    assert!(rpc_error_is_retryable(&RpcErrorShape::DeserError { payload_retry: None, wrapped_retry: Some(true) }));
    assert!(!rpc_error_is_retryable(&RpcErrorShape::DeserError { payload_retry: None, wrapped_retry: None }));
}

#[test]
fn policy_retries_refused_connections_too() {
    let policy = RateLimitConnRefusedRetryPolicy;
    assert!(policy.should_retry(&RpcErrorShape::SerError, "error sending request: Connection Refused (os error 111)"));
    assert!(policy.should_retry(&RpcErrorShape::NullResp, "null response"));
    assert!(!policy.should_retry(&RpcErrorShape::Other, "connection reset by peer"));
}

#[test]
fn failed_attempts_retry_nine_times_then_give_up() {
    assert_eq!(after_failed_attempt(true, 0), RetryStep::RetryAfter { retries: 1, delay_ms: 1 });
    assert_eq!(after_failed_attempt(true, 8), RetryStep::RetryAfter { retries: 9, delay_ms: 1 });
    assert_eq!(after_failed_attempt(true, 9), RetryStep::GiveUp);
    assert_eq!(after_failed_attempt(false, 0), RetryStep::GiveUp);
    let mut attempts = 1;
    let mut retries = 0;
    while let RetryStep::RetryAfter { retries: n, .. } = after_failed_attempt(true, retries) {
        retries = n;
        attempts += 1;
    }
    assert_eq!(attempts, 10);
}

fn planned_delays<S: Strategy>(strategy: S) -> Vec<std::time::Duration> {
    strategy.collect()
}

#[test]
fn any_cloneable_delay_sequence_is_a_strategy() {
    let delays = planned_delays(std::iter::repeat(std::time::Duration::from_millis(1)).take(3));
    assert_eq!(delays, vec![std::time::Duration::from_millis(1); 3]);
}

#[test]
fn test_decode_taiko_event_from_log_basic() {
    let inbox_address = AddressBytes([1u8; 20]);
    let taiko_wrapper_address = AddressBytes([2u8; 20]);
    let l1_block_number = 100;
    let l1_tx_hash = HashBytes([3u8; 32]);
    let verified = BatchesVerifiedWrapper {
        batch_id: 4,
        block_hash: HashBytes([5u8; 32]),
        l1_block_number,
        l1_tx_hash,
    };

    let source = classify_log(false, &inbox_address, &inbox_address, &taiko_wrapper_address);
    let decoded = pick_decoded_event(source, None, None, Some(verified), None);
    assert!(matches!(
        decoded,
        Some(DecodedEvent::BatchesVerified(v)) if v.l1_block_number == 100 && v.l1_tx_hash == HashBytes([3u8; 32])
    ));

    let source = classify_log(true, &inbox_address, &inbox_address, &taiko_wrapper_address);
    assert!(pick_decoded_event(source, None, None, Some(verified), None).is_none());

    let source = classify_log(false, &taiko_wrapper_address, &inbox_address, &taiko_wrapper_address);
    assert!(pick_decoded_event(source, None, None, Some(verified), None).is_none());
}

#[test]
fn backfill_steps_skip_failed_fetches_and_stop_at_handler_errors() {
    assert_eq!(after_receipt_fetch(true), ReceiptStep::ReadLogs);
    assert_eq!(after_receipt_fetch(false), ReceiptStep::SkipTransaction);
    assert_eq!(after_event_handled(true, 4), HandledStep::Continue { events_found: 5 });
    assert_eq!(after_event_handled(false, 4), HandledStep::Stop);
}

#[test]
fn migrations_run_only_with_writes_enabled_and_not_skipped() {
    assert_eq!(migration_step(false, false, true), MigrationStep::SkipWritesDisabled);
    assert_eq!(migration_step(true, true, false), MigrationStep::SkipRequested);
    assert_eq!(migration_step(true, false, true), MigrationStep::Run { reset_db: true });
    assert_eq!(migration_step(true, false, false), MigrationStep::Run { reset_db: false });
}
