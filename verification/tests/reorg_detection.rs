use taikoscope::extractor::ReorgDetector;
use taikoscope::reorg_detection::calculate_orphaned_blocks;

#[test]
fn test_calculate_orphaned_blocks_no_reorg() {
    let result = calculate_orphaned_blocks(100, 100, 0);
    assert_eq!(result, vec![0u64; 0]);
}

#[test]
fn test_calculate_orphaned_blocks_forward_progression() {
    let result = calculate_orphaned_blocks(100, 101, 1);
    assert_eq!(result, vec![0u64; 0]);
}

#[test]
fn test_calculate_orphaned_blocks_simple_reorg() {
    let result = calculate_orphaned_blocks(100, 98, 2);
    assert_eq!(result, vec![99u64, 100]);
}

#[test]
fn test_calculate_orphaned_blocks_deep_reorg() {
    let result = calculate_orphaned_blocks(100, 95, 5);
    assert_eq!(result, vec![96u64, 97, 98, 99, 100]);
}

#[test]
fn test_calculate_orphaned_blocks_depth_exceeds_old_head() {
    let result = calculate_orphaned_blocks(10, 5, 15);
    assert_eq!(result, vec![0u64; 0]);
}

#[test]
fn test_calculate_orphaned_blocks_edge_case_depth_equals_old_head() {
    let result = calculate_orphaned_blocks(10, 1, 10);
    assert_eq!(result, vec![1u64, 2, 3, 4, 5, 6, 7, 8, 9, 10]);
}

#[test]
fn initial_block() {
    let mut det = ReorgDetector::new();
    assert_eq!(det.on_new_block(5), None);
    assert_eq!(det.head_number(), 5);
}

#[test]
fn subsequent_blocks_increasing() {
    let mut det = ReorgDetector::new();
    det.on_new_block(5);
    assert_eq!(det.on_new_block(6), None);
    assert_eq!(det.head_number(), 6);
    assert_eq!(det.on_new_block(7), None);
    assert_eq!(det.head_number(), 7);
}

#[test]
fn reorg_to_lower_number() {
    let mut det = ReorgDetector::new();
    det.on_new_block(10);
    assert_eq!(det.on_new_block(8), Some(2));
    assert_eq!(det.head_number(), 8);
}

#[test]
fn reorg_by_one() {
    let mut det = ReorgDetector::new();
    det.on_new_block(10);
    assert_eq!(det.on_new_block(9), Some(1));
    assert_eq!(det.head_number(), 9);
}

#[test]
fn same_block_number_no_reorg() {
    let mut det = ReorgDetector::new();
    det.on_new_block(10);
    assert_eq!(det.on_new_block(10), None);
    assert_eq!(det.head_number(), 10);
}

#[test]
fn reorg_depth_capped_at_u16_max() {
    let mut det = ReorgDetector::new();
    det.on_new_block(u16::MAX as u64 + 10);
    assert_eq!(det.on_new_block(1), Some(u16::MAX));
    assert_eq!(det.head_number(), 1);
}

#[test]
fn reorg_from_initial_zero_state() {
    let mut det = ReorgDetector::new();
    assert_eq!(det.on_new_block(5), None);
    assert_eq!(det.head_number(), 5);
}

#[test]
fn reorg_to_zero_not_possible_if_blocks_are_positive() {
    let mut det = ReorgDetector::new();
    det.on_new_block(5);
    assert_eq!(det.on_new_block(0), Some(5));
    assert_eq!(det.head_number(), 0);
}

#[test]
fn detected_depth_orphans_the_blocks_between_heads() {
    let mut det = ReorgDetector::new();
    det.on_new_block(100);
    let depth = det.on_new_block(97).unwrap();
    assert_eq!(calculate_orphaned_blocks(100, 97, depth as u32), vec![98, 99, 100]);
}
