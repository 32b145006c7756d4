//! Decisions of the event processor: cost attribution, duplicate filtering
//! of L2 headers, reorg bookkeeping, message acknowledgement and preconf data.
use vstd::prelude::*;

use crate::bytes::{AddressBytes, HashBytes};
use crate::messages::TaikoEvent;
use std::collections::VecDeque;
use crate::l1_data_cost::{cost_from_receipt, receipt_cost, sat_mul, saturating_mul_u128, ReceiptFees};
use crate::reorg_detection::{block_range, collect_range};
use vstd::arithmetic::power2::{
    lemma2_to64, lemma2_to64_rest, lemma_pow2_strictly_increases, lemma_pow2_unfold, pow2,
};

verus! {

/// Number of L2 header hashes remembered for duplicate filtering.
pub const PROCESSED_HEADERS_CAPACITY: usize = 1000;

/// Retries after a failed attempt to process a message, before it is nacked.
pub const MAX_MESSAGE_RETRIES: u32 = 3;

/// Delay before a nacked message is redelivered, in seconds.
pub const NAK_DELAY_SECS: u64 = 30;

/// An epoch is a series of 32 slots.
pub const EPOCH_SLOTS: u64 = 32;

/// `total / n` rounded down, or zero when `n` is zero.
pub open spec fn average(total: int, n: int) -> int {
    if n == 0 { 0 } else { total / n }
}

/// Calculate average cost per batch for batch operations.
pub fn average_cost_per_batch(total_cost: u128, num_batches: usize) -> (r: u128)
    ensures
        r == average(total_cost as int, num_batches as int),
{
    if num_batches == 0 {
        0
    } else {
        total_cost / (num_batches as u128)
    }
}

/// Law: splitting a cost evenly over the proved batches never attributes more
/// than the whole cost, and leaves less than one share unattributed.
pub proof fn law_average_cost_never_exceeds_total(total: u128, n: usize)
    requires
        n > 0,
    ensures
        average(total as int, n as int) * n <= total,
        total < (average(total as int, n as int) + 1) * n,
{
    let q = total as int / n as int;
    assert(q * n <= total && total < (q + 1) * n) by (nonlinear_arith)
        requires
            n > 0,
            q == total as int / n as int,
    ;
}

/// Blocks orphaned when the head moved from `old_head` back to `new_head`:
/// every block above the new head up to and including the old head.
pub open spec fn orphaned_between(old_head: u64, new_head: u64) -> Seq<u64> {
    if new_head >= old_head {
        Seq::empty()
    } else {
        block_range(new_head + 1, (old_head - new_head) as nat)
    }
}

/// Calculate orphaned block numbers during a reorg: the blocks from
/// `new_head + 1` to `old_head` inclusive. The depth is not consulted.
pub fn calculate_orphaned_blocks(old_head: u64, new_head: u64, _depth: u32) -> (r: Vec<u64>)
    requires
        new_head >= old_head || old_head < u64::MAX,
    ensures
        r@ == orphaned_between(old_head, new_head),
{
    if new_head >= old_head {
        return Vec::new();
    }
    collect_range(new_head + 1, old_head)
}

/// Law: for a reorg of exactly the distance between the heads, the blocks
/// orphaned by depth and the blocks between the heads are the same blocks.
pub proof fn law_orphan_computations_agree(old_head: u64, new_head: u64)
    requires
        new_head < old_head,
        old_head - new_head <= u32::MAX,
    ensures
        crate::reorg_detection::orphaned_by_depth(old_head, new_head, (old_head - new_head) as u32)
            == orphaned_between(old_head, new_head),
{
    assert(crate::reorg_detection::orphaned_by_depth(old_head, new_head, (old_head - new_head) as u32)
        =~= orphaned_between(old_head, new_head));
}

/// Law: the depth that the reorg detector reports, when not capped, orphans
/// exactly the blocks between the new head and the old head.
pub proof fn law_detected_depth_orphans_blocks_between_heads(old_head: u64, new_head: u64)
    requires
        new_head < old_head,
        old_head - new_head <= u16::MAX,
    ensures
        crate::extractor::reorg_depth(old_head, new_head) matches Some(d)
            && crate::reorg_detection::orphaned_by_depth(old_head, new_head, d as u32)
            == orphaned_between(old_head, new_head),
{
    law_orphan_computations_agree(old_head, new_head);
}

/// The remembered hashes after `hash` is checked: unchanged when it was
/// remembered, else with it appended and, past the capacity, the oldest
/// hash dropped.
pub open spec fn recorded(before: Seq<Seq<u8>>, capacity: nat, hash: Seq<u8>) -> Seq<Seq<u8>> {
    if before.contains(hash) {
        before
    } else if before.len() < capacity {
        before.push(hash)
    } else {
        before.push(hash).drop_first()
    }
}

/// A bounded first-in-first-out set of L2 header hashes already processed.
pub struct ProcessedHeaders {
    hashes: VecDeque<HashBytes>,
    capacity: usize,
}

impl ProcessedHeaders {
    /// The remembered hashes, oldest first.
    pub closed spec fn hashes(&self) -> Seq<Seq<u8>> {
        self.hashes@.map_values(|h: HashBytes| h@)
    }

    /// How many hashes are remembered at most.
    pub closed spec fn capacity(&self) -> nat {
        self.capacity as nat
    }

    /// The set holds at most `capacity` hashes, none twice, and the capacity is positive.
    #[verifier::type_invariant]
    spec fn bounded_without_duplicates(&self) -> bool {
        &&& self.capacity > 0
        &&& self.hashes@.len() <= self.capacity
        &&& self.hashes().no_duplicates()
    }

    /// An empty set remembering up to `PROCESSED_HEADERS_CAPACITY` hashes.
    pub fn new() -> (r: Self)
        ensures
            r.hashes() == Seq::<Seq<u8>>::empty(),
            r.capacity() == PROCESSED_HEADERS_CAPACITY,
    {
        Self::with_capacity(PROCESSED_HEADERS_CAPACITY)
    }

    /// An empty set remembering up to `capacity` hashes.
    pub fn with_capacity(capacity: usize) -> (r: Self)
        requires
            capacity > 0,
        ensures
            r.hashes() == Seq::<Seq<u8>>::empty(),
            r.capacity() == capacity,
    {
        let r = ProcessedHeaders { hashes: VecDeque::new(), capacity };
        proof {
            assert(r.hashes() =~= Seq::<Seq<u8>>::empty());
        }
        r
    }

    /// Number of remembered hashes.
    pub fn len(&self) -> (r: usize)
        ensures
            r == self.hashes().len(),
    {
        self.hashes.len()
    }

    /// Whether `hash` is remembered.
    pub fn contains(&self, hash: &HashBytes) -> (r: bool)
        ensures
            r == self.hashes().contains(hash@),
    {
        let mut i: usize = 0;
        while i < self.hashes.len()
            invariant
                i <= self.hashes@.len(),
                forall|j: int| 0 <= j < i ==> self.hashes@[j]@ != hash@,
            decreases self.hashes@.len() - i,
        {
            if self.hashes[i].same(hash) {
                proof {
                    assert(self.hashes()[i as int] == hash@);
                }
                return true;
            }
            i = i + 1;
        }
        proof {
            if self.hashes().contains(hash@) {
                let k = choose|k: int| 0 <= k < self.hashes().len() && self.hashes()[k] == hash@;
                assert(self.hashes@[k]@ == hash@);
            }
        }
        false
    }

    /// Checks whether `hash` was already processed. A hash seen before is
    /// reported as a duplicate and the set is left unchanged; a new hash is
    /// appended, and the oldest hash is dropped when the set would exceed its
    /// capacity.
    pub fn check_and_record(&mut self, hash: HashBytes) -> (duplicate: bool)
        ensures
            final(self).capacity() == old(self).capacity(),
            duplicate == old(self).hashes().contains(hash@),
            final(self).hashes() == recorded(old(self).hashes(), old(self).capacity(), hash@),
    {
        proof {
            use_type_invariant(&*self);
        }
        if self.contains(&hash) {
            return true;
        }
        let ghost before = self.hashes();
        let mut hashes: VecDeque<HashBytes> = VecDeque::new();
        std::mem::swap(&mut hashes, &mut self.hashes);
        proof {
            assert(hashes@.map_values(|h: HashBytes| h@) == before);
        }
        hashes.push_back(hash);
        let ghost full = hashes@.map_values(|h: HashBytes| h@);
        proof {
            assert(full =~= before.push(hash@));
        }
        if hashes.len() > self.capacity {
            let _oldest = hashes.pop_front();
            proof {
                assert(hashes@.map_values(|h: HashBytes| h@) =~= full.drop_first());
            }
        }
        proof {
            let s = hashes@.map_values(|h: HashBytes| h@);
            assert(s.no_duplicates()) by {
                assert forall|i: int, j: int| 0 <= i < s.len() && 0 <= j < s.len() && i != j
                    implies s[i] != s[j] by {
                    let off: int = if full.len() > self.capacity + 0 { 1 } else { 0 };
                    if before.len() < self.capacity {
                        assert(s == full);
                    } else {
                        assert(s == full.drop_first());
                    }
                    assert(s[i] == full[i + off]);
                    assert(s[j] == full[j + off]);
                }
            }
        }
        self.hashes = hashes;
        false
    }
}

/// Law: after a hash is checked the set remembers it, and never holds more
/// than its capacity, so an L2 header delivered twice in a row is processed
/// once and the set stays bounded.
pub proof fn law_recorded_hash_is_duplicate(before: Seq<Seq<u8>>, cap: nat, hash: Seq<u8>)
    requires
        cap > 0,
        before.len() <= cap,
    ensures
        recorded(before, cap, hash).contains(hash),
        recorded(before, cap, hash).len() <= cap,
{
    let after = recorded(before, cap, hash);
    if !before.contains(hash) {
        assert(after[after.len() - 1] == hash);
    }
}

impl ProcessedHeaders {
    /// Notes an event that is logged and dropped: an L2 header's hash is
    /// checked and recorded, and whether it was a duplicate is returned; any
    /// other event leaves the set unchanged and is no duplicate.
    pub fn note_event(&mut self, event: &TaikoEvent) -> (duplicate: bool)
        ensures
            final(self).capacity() == old(self).capacity(),
            match event {
                TaikoEvent::L2Header(h) => duplicate == old(self).hashes().contains(h.hash@)
                    && final(self).hashes() == recorded(old(self).hashes(), old(self).capacity(), h.hash@),
                _ => !duplicate && final(self).hashes() == old(self).hashes(),
            },
    {
        match event {
            TaikoEvent::L2Header(h) => self.check_and_record(h.hash),
            _ => false,
        }
    }
}

/// What the processor does with a message after one attempt to process it.
#[derive(Debug, Clone, Copy)]
pub enum MessageOutcome {
    /// Processing succeeded: acknowledge the message.
    Ack,
    /// Retries are exhausted: negatively acknowledge with a redelivery delay.
    Nak {
        /// Redelivery delay in seconds.
        delay_secs: u64,
    },
    /// Try again after a backoff.
    Retry {
        /// The retry count after this retry.
        retries: u32,
        /// Backoff before the retry, in milliseconds.
        delay_ms: u64,
    },
}

/// `2^n` as a `u64`.
pub fn pow2_u64(n: u32) -> (r: u64)
    requires
        n < 64,
    ensures
        r == pow2(n as nat),
    decreases n,
{
    if n == 0 {
        proof {
            lemma2_to64();
        }
        1
    } else {
        proof {
            lemma_pow2_unfold(n as nat);
            lemma2_to64_rest();
            if n - 1 < 63 {
                lemma_pow2_strictly_increases((n - 1) as nat, 63);
            }
        }
        2 * pow2_u64(n - 1)
    }
}

/// Backoff before retry number `retries`: `100 * 2^retries` milliseconds.
pub open spec fn backoff_ms(retries: nat) -> nat {
    100 * pow2(retries)
}

/// `100 * 2^retries` milliseconds.
pub fn retry_backoff_ms(retries: u32) -> (r: u64)
    requires
        retries <= 57,
    ensures
        r == backoff_ms(retries as nat),
{
    proof {
        lemma2_to64_rest();
        if retries < 57 {
            lemma_pow2_strictly_increases(retries as nat, 57);
        }
    }
    100 * pow2_u64(retries)
}

/// The outcome of one processing attempt, given whether it succeeded and how
/// many retries were already made.
pub open spec fn message_outcome_spec(succeeded: bool, retries: u32) -> MessageOutcome {
    if succeeded {
        MessageOutcome::Ack
    } else if retries >= MAX_MESSAGE_RETRIES {
        MessageOutcome::Nak { delay_secs: NAK_DELAY_SECS }
    } else {
        MessageOutcome::Retry {
            retries: (retries + 1) as u32,
            delay_ms: backoff_ms((retries + 1) as nat) as u64,
        }
    }
}

/// Decides what to do after an attempt to process a message: acknowledge on
/// success, retry with exponential backoff while retries remain, and
/// negatively acknowledge once they are exhausted.
pub fn message_outcome(succeeded: bool, retries: u32) -> (r: MessageOutcome)
    ensures
        r == message_outcome_spec(succeeded, retries),
{
    if succeeded {
        MessageOutcome::Ack
    } else if retries >= MAX_MESSAGE_RETRIES {
        MessageOutcome::Nak { delay_secs: NAK_DELAY_SECS }
    } else {
        let next = retries + 1;
        MessageOutcome::Retry { retries: next, delay_ms: retry_backoff_ms(next) }
    }
}

/// Law: a message is attempted at most `MAX_MESSAGE_RETRIES + 1` times: a
/// retry is only ever granted while the retry count stays within the limit,
/// and every failure at the limit ends in a negative acknowledgement.
pub proof fn law_message_attempts_bounded(succeeded: bool, retries: u32)
    ensures
        message_outcome_spec(succeeded, retries) matches MessageOutcome::Retry { retries: n, .. }
            ==> n == retries + 1 && n <= MAX_MESSAGE_RETRIES,
        !succeeded && retries >= MAX_MESSAGE_RETRIES ==> message_outcome_spec(succeeded, retries)
            is Nak,
        succeeded ==> message_outcome_spec(succeeded, retries) is Ack,
{
}

/// Where a decoded event goes.
#[derive(Debug, Clone, Copy, PartialEq, Eq)]
pub enum EventRoute {
    /// Handle the event and write the results to the database.
    WriteToDatabase,
    /// Database writes are enabled but no writer exists: log an error and drop.
    MissingWriter,
    /// Database writes are disabled: log the event and drop it.
    LogAndDrop,
}

/// Routes a decoded event by whether database writes are enabled and a writer exists.
pub fn route_event(enable_db_writes: bool, has_writer: bool) -> (r: EventRoute)
    ensures
        r == if !enable_db_writes {
            EventRoute::LogAndDrop
        } else if has_writer {
            EventRoute::WriteToDatabase
        } else {
            EventRoute::MissingWriter
        },
{
    if enable_db_writes {
        if has_writer {
            EventRoute::WriteToDatabase
        } else {
            EventRoute::MissingWriter
        }
    } else {
        EventRoute::LogAndDrop
    }
}

/// Preconfirmation data is stored when at least one operator is known.
pub fn should_insert_preconf_data(has_current_operator: bool, has_next_operator: bool) -> (r: bool)
    ensures
        r == (has_current_operator || has_next_operator),
{
    has_current_operator || has_next_operator
}

/// A failure to fetch the next epoch's operator is reported, except on the
/// first slot of an epoch, which has no next operator.
pub fn next_operator_failure_is_reported(slot: u64) -> (r: bool)
    ensures
        r == (slot % EPOCH_SLOTS != 0),
{
    slot % EPOCH_SLOTS != 0
}

/// Cost of the transaction behind an event: nothing for the zero hash (no
/// receipt is fetched for it), else the cost of its receipt when one was found.
pub fn transaction_cost(tx_hash: &HashBytes, receipt: Option<ReceiptFees>) -> (r: Option<u128>)
    ensures
        r == if (forall|i: int| 0 <= i < 32 ==> tx_hash.0@[i] == 0u8) {
            None
        } else {
            match receipt {
                Some(rc) => Some(receipt_cost(rc) as u128),
                None => None,
            }
        },
{
    if tx_hash.is_zero() {
        return None;
    }
    match receipt {
        Some(rc) => Some(cost_from_receipt(&rc)),
        None => None,
    }
}

/// Rows `(l1_block_number, batch_id, cost)` recording the share of a proving
/// transaction's cost attributed to each proved batch.
pub fn prove_cost_rows(l1_block_number: u64, batch_ids: &[u64], total_cost: u128) -> (r: Vec<(u64, u64, u128)>)
    ensures
        r@.len() == batch_ids@.len(),
        forall|i: int|
            0 <= i < r@.len() ==> #[trigger] r@[i] == (
                l1_block_number,
                batch_ids@[i],
                average(total_cost as int, batch_ids@.len() as int) as u128,
            ),
{
    let share = average_cost_per_batch(total_cost, batch_ids.len());
    let mut rows: Vec<(u64, u64, u128)> = Vec::new();
    let mut i: usize = 0;
    while i < batch_ids.len()
        invariant
            i <= batch_ids@.len(),
            share == average(total_cost as int, batch_ids@.len() as int),
            rows@.len() == i,
            forall|k: int|
                0 <= k < i ==> #[trigger] rows@[k] == (l1_block_number, batch_ids@[k], share),
        decreases batch_ids@.len() - i,
    {
        rows.push((l1_block_number, batch_ids[i], share));
        i = i + 1;
    }
    rows
}

/// An L2 head row with its block statistics.
#[derive(Debug, Clone, Copy)]
pub struct L2HeadEvent {
    /// L2 block number.
    pub l2_block_number: u64,
    /// Block hash.
    pub block_hash: HashBytes,
    /// Block timestamp.
    pub block_ts: u64,
    /// Sum of gas used.
    pub sum_gas_used: u128,
    /// Number of transactions.
    pub sum_tx: u32,
    /// Sum of priority fees.
    pub sum_priority_fee: u128,
    /// Sum of base fees: gas used times base fee.
    pub sum_base_fee: u128,
    /// Sequencer (block beneficiary).
    pub sequencer: AddressBytes,
}

/// Builds the L2 head row for a header. When the block statistics could not
/// be fetched they default to zero; the base-fee sum is the gas sum times the
/// base fee (zero when absent), clamped.
pub fn l2_head_event(
    number: u64,
    hash: HashBytes,
    timestamp: u64,
    beneficiary: AddressBytes,
    base_fee_per_gas: Option<u64>,
    stats: Option<(u128, u32, u128)>,
) -> (r: L2HeadEvent)
    ensures
        r.l2_block_number == number,
        r.block_hash == hash,
        r.block_ts == timestamp,
        r.sequencer == beneficiary,
        (r.sum_gas_used, r.sum_tx, r.sum_priority_fee) == match stats {
            Some(s) => s,
            None => (0u128, 0u32, 0u128),
        },
        r.sum_base_fee == sat_mul(
            r.sum_gas_used as int,
            match base_fee_per_gas { Some(b) => b as int, None => 0 },
        ),
{
    let (sum_gas_used, sum_tx, sum_priority_fee) = match stats {
        Some(s) => s,
        None => (0, 0, 0),
    };
    let base = match base_fee_per_gas {
        Some(b) => b,
        None => 0,
    };
    L2HeadEvent {
        l2_block_number: number,
        block_hash: hash,
        block_ts: timestamp,
        sum_gas_used,
        sum_tx,
        sum_priority_fee,
        sum_base_fee: saturating_mul_u128(sum_gas_used, base as u128),
        sequencer: beneficiary,
    }
}

/// The database writes that follow a detected L2 reorg.
#[derive(Debug)]
pub struct ReorgPlan {
    /// The reorg record: `(new head, depth, previous sequencer, new sequencer)`.
    pub reorg_record: (u64, u16, AddressBytes, AddressBytes),
    /// An orphaned hash from a one-block reorg, with the block number it is recorded under.
    pub orphaned_hash: Option<(HashBytes, u64)>,
    /// Block numbers whose latest hashes are to be marked orphaned.
    pub orphaned_blocks: Vec<u64>,
}

/// Plans the writes for a reorg of `depth` detected when the head moved from
/// `old_head` to the header `new_number` sequenced by `new_sequencer`. The
/// previous sequencer is the one of the last header seen, or the zero address.
/// Orphaned blocks are looked up only for a reorg of positive depth.
pub fn plan_reorg(
    prev_header: Option<(u64, AddressBytes)>,
    old_head: u64,
    new_number: u64,
    new_sequencer: AddressBytes,
    depth: u16,
    orphaned_hash: Option<HashBytes>,
) -> (r: ReorgPlan)
    requires
        depth == 0 || new_number >= old_head || old_head < u64::MAX,
    ensures
        r.reorg_record.0 == new_number,
        r.reorg_record.1 == depth,
        r.reorg_record.2@ == match prev_header {
            Some((_, a)) => a@,
            None => Seq::new(20, |i: int| 0u8),
        },
        r.reorg_record.3 == new_sequencer,
        r.orphaned_hash == match orphaned_hash {
            Some(h) => Some((h, new_number)),
            None => None,
        },
        r.orphaned_blocks@ == if depth > 0 {
            orphaned_between(old_head, new_number)
        } else {
            Seq::empty()
        },
{
    let old_seq = match prev_header {
        Some((_, a)) => a,
        None => AddressBytes::zero(),
    };
    let orphaned_hash = match orphaned_hash {
        Some(h) => Some((h, new_number)),
        None => None,
    };
    let orphaned_blocks = if depth > 0 {
        calculate_orphaned_blocks(old_head, new_number, depth as u32)
    } else {
        Vec::new()
    };
    ReorgPlan {
        reorg_record: (new_number, depth, old_seq, new_sequencer),
        orphaned_hash,
        orphaned_blocks,
    }
}

/// Which background monitors the processor starts.
#[derive(Debug, Clone, Copy, PartialEq, Eq, Structural)]
pub struct MonitorPlan {
    /// Start the public RPC monitor.
    pub public_rpc: bool,
    /// Start the four database-backed monitors (L1, L2, proof and verification timeouts).
    pub database_monitors: bool,
    /// Warn that monitors are enabled without a database reader.
    pub warn_no_reader: bool,
}

/// Plans the monitors: none when monitors are disabled; otherwise the public
/// RPC monitor when its URL is configured, and the database monitors when a
/// reader exists (else a warning).
pub fn plan_monitors(monitors_enabled: bool, has_public_rpc_url: bool, has_reader: bool) -> (r: MonitorPlan)
    ensures
        r.public_rpc == (monitors_enabled && has_public_rpc_url),
        r.database_monitors == (monitors_enabled && has_reader),
        r.warn_no_reader == (monitors_enabled && !has_reader),
{
    if !monitors_enabled {
        return MonitorPlan { public_rpc: false, database_monitors: false, warn_no_reader: false };
    }
    MonitorPlan { public_rpc: has_public_rpc_url, database_monitors: has_reader, warn_no_reader: !has_reader }
}

} // verus!
