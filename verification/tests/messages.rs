use taikoscope::bytes::HashBytes;
use taikoscope::messages::{
    BatchProposedWrapper, BatchesProvedWrapper, BatchesVerifiedWrapper,
    ForcedInclusionProcessedWrapper, L1Header, L2Header, TaikoEvent,
};

fn hex_of(b: u8) -> String {
    let mut s = String::from("0x");
    for _ in 0..32 {
        s.push_str(&format!("{:02x}", b));
    }
    s
}

#[test]
fn l1_header_dedup_id_names_its_kind() {
    let event = TaikoEvent::L1Header(L1Header {
        number: 12345,
        hash: HashBytes([0u8; 32]),
        slot: 1,
        timestamp: 1234567890,
    });
    let dedup_id = event.dedup_id();
    assert!(!dedup_id.is_empty());
    assert!(dedup_id.contains("l1_header"));
    assert_eq!(dedup_id, format!("12345:{}-l1_header", hex_of(0)));
}

#[test]
fn dedup_ids_of_batch_events() {
    let tx = HashBytes([0xab; 32]);
    let proposed = TaikoEvent::BatchProposed(BatchProposedWrapper {
        batch_id: 3,
        last_block_id: 77,
        proposed_in: 10,
        l1_tx_hash: tx,
    });
    assert_eq!(proposed.dedup_id(), format!("77:{}-batch_proposed", hex_of(0xab)));

    let proved = TaikoEvent::BatchesProved(BatchesProvedWrapper {
        batch_ids: vec![5, 6],
        l1_block_number: 11,
        l1_tx_hash: tx,
    });
    assert_eq!(proved.dedup_id(), format!("5:{}-batches_proved", hex_of(0xab)));

    let proved_none = TaikoEvent::BatchesProved(BatchesProvedWrapper {
        batch_ids: vec![],
        l1_block_number: 11,
        l1_tx_hash: tx,
    });
    assert_eq!(proved_none.dedup_id(), format!("0:{}-batches_proved", hex_of(0xab)));

    let verified = TaikoEvent::BatchesVerified(BatchesVerifiedWrapper {
        batch_id: 9,
        block_hash: HashBytes([1u8; 32]),
        l1_block_number: 12,
        l1_tx_hash: tx,
    });
    assert_eq!(verified.dedup_id(), format!("9:{}-batches_verified", hex_of(0xab)));

    let forced = TaikoEvent::ForcedInclusionProcessed(ForcedInclusionProcessedWrapper {
        blob_hash: HashBytes([0x0f; 32]),
    });
    assert_eq!(forced.dedup_id(), format!("{}-forced_inclusion_processed", hex_of(0x0f)));
}

fn l1(number: u64, hash: u8) -> TaikoEvent {
    TaikoEvent::L1Header(L1Header { number, hash: HashBytes([hash; 32]), slot: 0, timestamp: 0 })
}

fn l2(number: u64, hash: u8) -> TaikoEvent {
    TaikoEvent::L2Header(L2Header {
        number,
        hash: HashBytes([hash; 32]),
        parent_hash: HashBytes([0u8; 32]),
        timestamp: 0,
        gas_used: 0,
        beneficiary: taikoscope::bytes::AddressBytes([0u8; 20]),
        base_fee_per_gas: 0,
    })
}

#[test]
fn dedup_ids_tell_distinct_events_apart() {
    assert_eq!(l1(7, 1).dedup_id(), l1(7, 1).dedup_id());
    assert_ne!(l1(7, 1).dedup_id(), l1(8, 1).dedup_id());
    assert_ne!(l1(7, 1).dedup_id(), l1(7, 2).dedup_id());
    assert_ne!(l1(7, 1).dedup_id(), l2(7, 1).dedup_id());
    assert_ne!(l1(1, 1).dedup_id(), l1(11, 1).dedup_id());
    let proved = TaikoEvent::BatchesProved(BatchesProvedWrapper {
        batch_ids: vec![],
        l1_block_number: 3,
        l1_tx_hash: HashBytes([1u8; 32]),
    });
    assert_eq!(proved.dedup_id(), format!("0:{}-batches_proved", hex_of(1)));
}
