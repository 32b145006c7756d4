//! Gap detection: which block ranges to scan for missing blocks, which of the
//! blocks found missing still need a backfill, and the slot of a backfilled L1 block.
use vstd::prelude::*;

use std::collections::HashSet;

use crate::extractor::LogSource;
use crate::messages::{
    BatchProposedWrapper, BatchesProvedWrapper, BatchesVerifiedWrapper,
    ForcedInclusionProcessedWrapper,
};

verus! {

/// Timestamp of the Ethereum beacon chain genesis.
pub const GENESIS_TIMESTAMP: u64 = 1606824023;

/// Duration of one slot in seconds.
pub const SLOT_DURATION: u64 = 12;

/// The blocks of `original` that also appear in `current`, in their original order.
pub open spec fn still_missing(original: Seq<u64>, current: Seq<u64>) -> Seq<u64> {
    original.filter(|b: u64| current.contains(b))
}

/// Whether `v` contains `x`.
pub fn vec_contains_u64(v: &Vec<u64>, x: u64) -> (r: bool)
    ensures
        r == v@.contains(x),
{
    let mut i: usize = 0;
    while i < v.len()
        invariant
            i <= v@.len(),
            forall|j: int| 0 <= j < i ==> v@[j] != x,
        decreases v@.len() - i,
    {
        if v[i] == x {
            return true;
        }
        i = i + 1;
    }
    false
}

/// Pure helper function to select blocks that are still missing after a recheck:
/// the blocks of `original_gaps` that appear in `current_gaps`, in their original order.
pub fn select_still_missing(original_gaps: Vec<u64>, current_gaps: Vec<u64>) -> (r: Vec<u64>)
    ensures
        r@ == still_missing(original_gaps@, current_gaps@),
{
    broadcast use vstd::std_specs::hash::group_hash_axioms;

    let mut current: HashSet<u64> = HashSet::new();
    let mut k: usize = 0;
    while k < current_gaps.len()
        invariant
            k <= current_gaps@.len(),
            forall|b: u64| current@.contains(b) <==> current_gaps@.subrange(0, k as int).contains(b),
        decreases current_gaps@.len() - k,
    {
        let ghost before = current_gaps@.subrange(0, k as int);
        let ghost after = current_gaps@.subrange(0, k + 1);
        proof {
            assert(after =~= before.push(current_gaps@[k as int]));
            assert forall|b: u64| after.contains(b) <==> (before.contains(b) || b == current_gaps@[k as int]) by {
                if after.contains(b) {
                    let j = choose|j: int| 0 <= j < after.len() && after[j] == b;
                    if j < before.len() {
                        assert(before[j] == b);
                    }
                }
                if before.contains(b) {
                    let j = choose|j: int| 0 <= j < before.len() && before[j] == b;
                    assert(after[j] == b);
                }
                if b == current_gaps@[k as int] {
                    assert(after[k as int] == b);
                }
            }
        }
        current.insert(current_gaps[k]);
        k = k + 1;
    }
    proof {
        assert(current_gaps@.subrange(0, current_gaps@.len() as int) =~= current_gaps@);
    }
    let ghost pred = |b: u64| current_gaps@.contains(b);
    let mut out: Vec<u64> = Vec::new();
    let mut i: usize = 0;
    while i < original_gaps.len()
        invariant
            i <= original_gaps@.len(),
            forall|b: u64| current@.contains(b) <==> current_gaps@.contains(b),
            pred == (|b: u64| current_gaps@.contains(b)),
            out@ == original_gaps@.subrange(0, i as int).filter(pred),
        decreases original_gaps@.len() - i,
    {
        let b = original_gaps[i];
        proof {
            let next = original_gaps@.subrange(0, i + 1);
            assert(next.drop_last() =~= original_gaps@.subrange(0, i as int));
            assert(next.last() == b);
            reveal(Seq::filter);
        }
        if current.contains(&b) {
            out.push(b);
        }
        i = i + 1;
    }
    proof {
        assert(original_gaps@.subrange(0, original_gaps@.len() as int) =~= original_gaps@);
    }
    out
}

/// Law: every block selected for backfill was missing at both checks, and a
/// block missing at both checks is selected.
pub proof fn law_still_missing_is_intersection(original: Seq<u64>, current: Seq<u64>, b: u64)
    ensures
        still_missing(original, current).contains(b) <==> (original.contains(b) && current.contains(
            b,
        )),
        still_missing(original, current).len() <= original.len(),
{
    broadcast use vstd::seq_lib::group_filter_ensures;

    let pred = |x: u64| current.contains(x);
    if still_missing(original, current).contains(b) {
        let k = choose|k: int| 0 <= k < still_missing(original, current).len()
            && still_missing(original, current)[k] == b;
        lemma_filter_subset(original, pred, k);
    }
    if original.contains(b) && current.contains(b) {
        let k = choose|k: int| 0 <= k < original.len() && original[k] == b;
        assert(pred(original[k]));
    }
}

proof fn lemma_filter_subset(s: Seq<u64>, pred: spec_fn(u64) -> bool, k: int)
    requires
        0 <= k < s.filter(pred).len(),
    ensures
        s.contains(s.filter(pred)[k]),
    decreases s.len(),
{
    reveal(Seq::filter);
    let sub = s.drop_last().filter(pred);
    if pred(s.last()) && k == sub.len() {
        assert(s[s.len() - 1] == s.last());
    } else {
        lemma_filter_subset(s.drop_last(), pred, k);
        let x = sub[k];
        let j = choose|j: int| 0 <= j < s.drop_last().len() && s.drop_last()[j] == x;
        assert(s[j] == x);
    }
}

/// First block of a lookback window: `latest_db - lookback_blocks + 1`, but
/// never below block one.
pub open spec fn lookback_start(latest_db: u64, lookback_blocks: u64) -> int {
    let s = if latest_db < lookback_blocks { 0 } else { latest_db - lookback_blocks };
    if s + 1 > 1 { s + 1 } else { 1 }
}

/// Pure helper function to calculate lookback start block.
pub fn calculate_lookback_start(latest_db: u64, lookback_blocks: u64) -> (r: u64)
    requires
        lookback_blocks > 0 || latest_db < u64::MAX,
    ensures
        r == lookback_start(latest_db, lookback_blocks),
{
    let s = latest_db.saturating_sub(lookback_blocks) + 1;
    if s > 1 {
        s
    } else {
        1
    }
}

/// The start block that a lookback window imposes on a scan: none when no
/// lookback is configured.
pub fn lookback_start_override(latest_db: u64, lookback_blocks: u64) -> (r: Option<u64>)
    ensures
        r == if lookback_blocks > 0 {
            Some(lookback_start(latest_db, lookback_blocks) as u64)
        } else {
            None
        },
{
    if lookback_blocks > 0 {
        Some(calculate_lookback_start(latest_db, lookback_blocks))
    } else {
        None
    }
}

/// The chain and database heads that one gap detection cycle works from.
#[derive(Debug, Clone, Copy)]
pub struct GapDetectionState {
    /// Latest L1 block on chain.
    pub latest_l1_rpc: u64,
    /// Latest L2 block on chain.
    pub latest_l2_rpc: u64,
    /// Latest L1 block stored (zero when none).
    pub latest_l1_db: u64,
    /// Latest L2 block stored (zero when none).
    pub latest_l2_db: u64,
    /// Last L1 block old enough to backfill.
    pub l1_backfill_end: u64,
    /// Last L2 block old enough to backfill.
    pub l2_backfill_end: u64,
}

/// Builds the gap detection state: missing database heads count as zero and
/// only blocks at least `finalization_buffer` behind the chain head are backfilled.
pub fn gap_detection_state(
    latest_l1_rpc: u64,
    latest_l2_rpc: u64,
    latest_l1_db: Option<u64>,
    latest_l2_db: Option<u64>,
    finalization_buffer: u64,
) -> (r: GapDetectionState)
    ensures
        r.latest_l1_rpc == latest_l1_rpc,
        r.latest_l2_rpc == latest_l2_rpc,
        r.latest_l1_db == match latest_l1_db { Some(b) => b, None => 0 },
        r.latest_l2_db == match latest_l2_db { Some(b) => b, None => 0 },
        r.l1_backfill_end as int == if latest_l1_rpc < finalization_buffer { 0 } else {
            latest_l1_rpc - finalization_buffer
        },
        r.l2_backfill_end as int == if latest_l2_rpc < finalization_buffer { 0 } else {
            latest_l2_rpc - finalization_buffer
        },
{
    GapDetectionState {
        latest_l1_rpc,
        latest_l2_rpc,
        latest_l1_db: match latest_l1_db {
            Some(b) => b,
            None => 0,
        },
        latest_l2_db: match latest_l2_db {
            Some(b) => b,
            None => 0,
        },
        l1_backfill_end: latest_l1_rpc.saturating_sub(finalization_buffer),
        l2_backfill_end: latest_l2_rpc.saturating_sub(finalization_buffer),
    }
}

/// The range of blocks to scan for gaps: from the override (or the block after
/// the latest stored one) to the backfill end; none when that range is empty.
pub fn gap_scan_range(latest_db: u64, backfill_end: u64, start_override: Option<u64>) -> (r: Option<(u64, u64)>)
    requires
        start_override is Some || latest_db < u64::MAX,
    ensures
        r == ({
            let start = match start_override { Some(s) => s as int, None => latest_db + 1 };
            if start > backfill_end { None } else { Some((start as u64, backfill_end)) }
        }),
{
    let start = match start_override {
        Some(s) => s,
        None => latest_db + 1,
    };
    if start > backfill_end {
        None
    } else {
        Some((start, backfill_end))
    }
}

/// Beacon slot of an L1 block: slots since genesis for blocks after genesis,
/// else the block number itself.
pub fn l1_slot(timestamp: u64, number: u64) -> (r: u64)
    ensures
        r == if timestamp >= GENESIS_TIMESTAMP {
            ((timestamp - GENESIS_TIMESTAMP) / SLOT_DURATION as int) as u64
        } else {
            number
        },
{
    if timestamp >= GENESIS_TIMESTAMP {
        (timestamp - GENESIS_TIMESTAMP) / SLOT_DURATION
    } else {
        number
    }
}

/// Law: a lookback window never starts below block one, never starts after
/// the block following the latest stored block, and covers at most
/// `lookback_blocks` blocks up to the latest stored block.
pub proof fn law_lookback_window(latest_db: u64, lookback_blocks: u64)
    requires
        lookback_blocks > 0,
    ensures
        1 <= lookback_start(latest_db, lookback_blocks) <= latest_db + 1,
        latest_db - lookback_start(latest_db, lookback_blocks) + 1 <= lookback_blocks,
{
}

/// What a gap scan leads to.
#[derive(Debug, Clone, Copy, PartialEq, Eq, Structural)]
pub enum GapStep {
    /// No gaps: nothing to do.
    NoGaps,
    /// Database writes are disabled: only report what would be backfilled.
    DryRun,
    /// Look again, to skip blocks that live processing filled meanwhile.
    Recheck,
}

/// Decides what follows a gap scan.
pub fn gap_step(gaps_found: usize, enable_db_writes: bool) -> (r: GapStep)
    ensures
        r == if gaps_found == 0 {
            GapStep::NoGaps
        } else if enable_db_writes {
            GapStep::Recheck
        } else {
            GapStep::DryRun
        },
{
    if gaps_found == 0 {
        GapStep::NoGaps
    } else if enable_db_writes {
        GapStep::Recheck
    } else {
        GapStep::DryRun
    }
}

/// Decoded Taiko event from a log.
#[derive(Debug, Clone)]
pub enum DecodedEvent {
    /// A batch was proposed.
    BatchProposed(BatchProposedWrapper),
    /// Batches were proved.
    BatchesProved(BatchesProvedWrapper),
    /// Batches were verified.
    BatchesVerified(BatchesVerifiedWrapper),
    /// A forced inclusion was processed.
    ForcedInclusionProcessed(ForcedInclusionProcessedWrapper),
}

/// The event a backfilled log stands for, given where it comes from and what
/// it decoded as under each event type. An inbox log is read as a proposal,
/// failing that as a proof, failing that as a verification; a wrapper log
/// only as a processed forced inclusion; removed and unrelated logs are
/// skipped.
pub fn pick_decoded_event(
    source: LogSource,
    proposed: Option<BatchProposedWrapper>,
    proved: Option<BatchesProvedWrapper>,
    verified: Option<BatchesVerifiedWrapper>,
    forced: Option<ForcedInclusionProcessedWrapper>,
) -> (r: Option<DecodedEvent>)
    ensures
        r == match source {
            LogSource::Inbox => match proposed {
                Some(p) => Some(DecodedEvent::BatchProposed(p)),
                None => match proved {
                    Some(p) => Some(DecodedEvent::BatchesProved(p)),
                    None => match verified {
                        Some(v) => Some(DecodedEvent::BatchesVerified(v)),
                        None => None,
                    },
                },
            },
            LogSource::Wrapper => match forced {
                Some(f) => Some(DecodedEvent::ForcedInclusionProcessed(f)),
                None => None,
            },
            _ => None,
        },
{
    match source {
        LogSource::Inbox => match proposed {
            Some(p) => Some(DecodedEvent::BatchProposed(p)),
            None => match proved {
                Some(p) => Some(DecodedEvent::BatchesProved(p)),
                None => match verified {
                    Some(v) => Some(DecodedEvent::BatchesVerified(v)),
                    None => None,
                },
            },
        },
        LogSource::Wrapper => match forced {
            Some(f) => Some(DecodedEvent::ForcedInclusionProcessed(f)),
            None => None,
        },
        _ => None,
    }
}

/// What the backfill of one L1 block does after fetching a transaction's receipt.
#[derive(Debug, Clone, Copy, PartialEq, Eq, Structural)]
pub enum ReceiptStep {
    /// The receipt was fetched: read its logs.
    ReadLogs,
    /// The fetch failed: warn and go on with the next transaction.
    SkipTransaction,
}

/// A failed receipt fetch skips its transaction; it does not end the backfill.
pub fn after_receipt_fetch(fetched: bool) -> (r: ReceiptStep)
    ensures
        r == if fetched { ReceiptStep::ReadLogs } else { ReceiptStep::SkipTransaction },
{
    if fetched {
        ReceiptStep::ReadLogs
    } else {
        ReceiptStep::SkipTransaction
    }
}

/// What the backfill of one L1 block does after handing a decoded event on.
#[derive(Debug, Clone, Copy, PartialEq, Eq, Structural)]
pub enum HandledStep {
    /// Handled: count it and go on.
    Continue {
        /// Events found in the block so far.
        events_found: u64,
    },
    /// The handler failed: stop the block's backfill and report the error.
    Stop,
}

/// A handled event is counted; the first handler error stops the backfill of
/// the block.
pub fn after_event_handled(handled: bool, events_found: u64) -> (r: HandledStep)
    requires
        !handled || events_found < u64::MAX,
    ensures
        r == if handled {
            HandledStep::Continue { events_found: (events_found + 1) as u64 }
        } else {
            HandledStep::Stop
        },
{
    if handled {
        HandledStep::Continue { events_found: events_found + 1 }
    } else {
        HandledStep::Stop
    }
}

} // verus!
