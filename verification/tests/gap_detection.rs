use taikoscope::gap_detection::{
    calculate_lookback_start, gap_detection_state, gap_scan_range, l1_slot,
    lookback_start_override, select_still_missing,
};

#[test]
fn test_select_still_missing() {
    let original = vec![1, 2, 3, 4, 5];
    let current = vec![2, 4, 6];
    let result = select_still_missing(original, current);
    assert_eq!(result, vec![2, 4]);
}

#[test]
fn test_select_still_missing_empty() {
    let original = vec![1u64, 2, 3];
    let current = vec![];
    let result = select_still_missing(original, current);
    assert_eq!(result, vec![0u64; 0]);
}

#[test]
fn test_select_still_missing_all_missing() {
    let original = vec![1u64, 2, 3];
    let current = vec![1u64, 2, 3];
    let result = select_still_missing(original, current);
    assert_eq!(result, vec![1u64, 2, 3]);
}

#[test]
fn test_calculate_lookback_start() {
    assert_eq!(calculate_lookback_start(100, 50), 51);
    assert_eq!(calculate_lookback_start(100, 100), 1);
    assert_eq!(calculate_lookback_start(100, 200), 1);
    assert_eq!(calculate_lookback_start(0, 50), 1);
}

#[test]
fn still_missing_keeps_original_order_and_duplicates() {
    let result = select_still_missing(vec![9, 3, 9, 7], vec![7, 9]);
    assert_eq!(result, vec![9, 9, 7]);
}

#[test]
fn lookback_override_only_with_lookback() {
    assert_eq!(lookback_start_override(100, 0), None);
    assert_eq!(lookback_start_override(100, 10), Some(91));
}

#[test]
fn gap_state_uses_buffer_and_defaults() {
    let s = gap_detection_state(1000, 50, None, Some(40), 100);
    assert_eq!(s.latest_l1_db, 0);
    assert_eq!(s.latest_l2_db, 40);
    assert_eq!(s.l1_backfill_end, 900);
    assert_eq!(s.l2_backfill_end, 0);
}

#[test]
fn gap_scan_range_cases() {
    assert_eq!(gap_scan_range(10, 20, None), Some((11, 20)));
    assert_eq!(gap_scan_range(10, 10, None), None);
    assert_eq!(gap_scan_range(10, 20, Some(5)), Some((5, 20)));
    assert_eq!(gap_scan_range(10, 20, Some(21)), None);
}

#[test]
fn slot_from_timestamp() {
    assert_eq!(l1_slot(1606824023, 5), 0);
    assert_eq!(l1_slot(1606824023 + 12 * 10 + 11, 5), 10);
    assert_eq!(l1_slot(100, 5), 5);
}
