use std::time::{Duration, Instant};

use taikoscope::config_check::{effective_component_id, validate_driver_options, ConfigError};
use taikoscope::inserter::{BatchRow, BatchRowError, L1HeadEvent, ProposedBatch};
use taikoscope::bytes::{AddressBytes, HashBytes};
use taikoscope::nats::{after_publish_attempt, PublishStep};
use taikoscope::rate_limiter::RateLimiter;
use taikoscope::retries::is_connection_refused;
use taikoscope::server::{origin_allowed, RateLimitLayer};

#[test]
fn denies_when_over_capacity() {
    let mut limiter = RateLimiter::new_at(2, 50_000_000, 0, Instant::now());
    assert!(limiter.try_acquire_at(1));
    assert!(limiter.try_acquire_at(2));
    assert!(!limiter.try_acquire_at(3));
}

#[test]
fn resets_after_period() {
    let mut limiter = RateLimiter::new_at(1, 10_000_000, 0, Instant::now());
    assert!(limiter.try_acquire_at(1));
    assert!(!limiter.try_acquire_at(2));
    assert!(limiter.try_acquire_at(15_000_000));
    assert!(!limiter.try_acquire_at(15_000_001));
}

#[test]
fn clock_driven_limiter_denies_over_capacity() {
    let mut limiter = RateLimiter::new(2, Duration::from_secs(60));
    assert!(limiter.try_acquire());
    assert!(limiter.try_acquire());
    assert!(!limiter.try_acquire());
}

#[test]
fn sets_retry_after_header() {
    let mut layer = RateLimitLayer::new(1, Duration::from_secs(30));
    assert!(layer.check_request().is_none());
    let rejection = layer.check_request().unwrap();
    assert_eq!(rejection.retry_after_secs.to_string(), "30");
    assert_eq!(rejection.message, "Rate limit exceeded. Retry after 30 seconds");
}

fn default_origins() -> Vec<String> {
    vec!["https://masaya.taikoscope.xyz".to_owned()]
}

#[test]
fn allows_default_origin() {
    assert!(origin_allowed(&default_origins(), "https://masaya.taikoscope.xyz"));
}

#[test]
fn allows_extra_origin() {
    let mut origins = default_origins();
    origins.push("https://example.com".to_owned());
    assert!(origin_allowed(&origins, "https://example.com"));
    assert!(!origin_allowed(&default_origins(), "https://example.com"));
}

#[test]
fn allows_localhost_origin() {
    assert!(origin_allowed(&default_origins(), "http://localhost:5173"));
    assert!(!origin_allowed(&default_origins(), "http://localhost"));
}

#[test]
fn allows_127_0_0_1_origin() {
    assert!(origin_allowed(&default_origins(), "http://127.0.0.1:3001"));
}

#[test]
fn allows_vercel_preview_origin() {
    assert!(origin_allowed(&default_origins(), "https://preview-abc.vercel.app"));
}

#[test]
fn denies_other_origin() {
    assert!(!origin_allowed(&default_origins(), "https://notallowed.com"));
}

#[test]
fn connection_refused_detection() {
    assert!(is_connection_refused("error: Connection Refused (os error 111)"));
    assert!(is_connection_refused("connection refused"));
    assert!(!is_connection_refused("connection reset by peer"));
    assert!(!is_connection_refused(""));
}

#[test]
fn publish_retry_steps() {
    assert_eq!(after_publish_attempt(true, 0, 3), PublishStep::Done);
    assert_eq!(after_publish_attempt(false, 0, 3), PublishStep::Retry { retries: 1, delay_ms: 200 });
    assert_eq!(after_publish_attempt(false, 2, 3), PublishStep::Retry { retries: 3, delay_ms: 800 });
    assert_eq!(after_publish_attempt(false, 3, 3), PublishStep::GiveUp);
    assert_eq!(after_publish_attempt(false, 0, 0), PublishStep::GiveUp);
}

#[test]
fn driver_option_checks() {
    assert_eq!(validate_driver_options(true, false, false, "", "", ""), Err(ConfigError::InstatusMissing));
    assert_eq!(validate_driver_options(false, false, true, "", "db", "u"), Err(ConfigError::ClickhouseUrlMissing));
    assert_eq!(validate_driver_options(false, false, true, "http://x", "", "u"), Err(ConfigError::ClickhouseDbMissing));
    assert_eq!(validate_driver_options(false, false, true, "http://x", "db", ""), Err(ConfigError::ClickhouseUserMissing));
    assert_eq!(validate_driver_options(true, true, true, "http://x", "db", "u"), Ok(()));
    assert_eq!(validate_driver_options(false, false, false, "", "", ""), Ok(()));
    assert_eq!(effective_component_id(false, "comp"), "");
    assert_eq!(effective_component_id(true, "comp"), "comp");
}

#[test]
fn batch_rows() {
    let batch = ProposedBatch {
        proposed_in: 100,
        batch_id: 7,
        block_count: 3,
        proposer: AddressBytes([1u8; 20]),
        blob_hash_count: 2,
        blob_byte_size: 4096,
    };
    let row = BatchRow::try_from(&batch).unwrap();
    assert_eq!((row.l1_block_number, row.batch_id, row.batch_size, row.blob_count, row.blob_total_bytes), (100, 7, 3, 2, 4096));
    let too_many_blocks = ProposedBatch { block_count: 70_000, ..batch };
    assert_eq!(BatchRow::try_from(&too_many_blocks).unwrap_err(), BatchRowError::TooManyBlocks);
    let too_many_blobs = ProposedBatch { blob_hash_count: 256, ..batch };
    assert_eq!(BatchRow::try_from(&too_many_blobs).unwrap_err(), BatchRowError::TooManyBlobs);
    let head = L1HeadEvent::from_block(1, HashBytes([0u8; 32]), 1, 1);
    assert_eq!((head.l1_block_number, head.slot, head.block_ts), (1, 1, 1));
}

#[test]
fn capacity_bounds_grants_within_one_window() {
    let mut limiter = RateLimiter::new(5, Duration::from_secs(60));
    let granted = (0..10).filter(|_| limiter.try_acquire()).count();
    assert_eq!(granted, 5);
}

#[test]
fn retry_hint_is_the_window_in_whole_seconds() {
    let mut layer = RateLimitLayer::new(1, Duration::from_millis(2500));
    assert!(layer.check_request().is_none());
    assert_eq!(layer.check_request().unwrap().retry_after_secs, 2);
}
