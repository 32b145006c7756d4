//! Block statistics over all receipts of a block, and reorg detection by
//! block number.
use vstd::prelude::*;

use crate::block_stats::{block_stats_excluding, gas_sum, priority_sum};
use crate::l1_data_cost::ReceiptFees;

verus! {

/// The base fee as the statistics read it: absent means zero.
pub open spec fn base_or_zero(base_fee: Option<u64>) -> int {
    match base_fee {
        Some(b) => b as int,
        None => 0,
    }
}

/// Compute aggregated gas and priority fee statistics for a set of receipts.
///
/// Returns `(total_gas_used, transaction_count, total_priority_fee)`; every
/// receipt counts, and an absent base fee is read as zero.
pub fn compute_block_stats(receipts: &[ReceiptFees], base_fee: Option<u64>) -> (r: (
    u128,
    u32,
    u128,
))
    requires
        priority_sum(receipts@, base_or_zero(base_fee), None, receipts@.len()) <= u128::MAX,
    ensures
        r.0 == gas_sum(receipts@, None, receipts@.len()),
        r.1 as int == receipts@.len() % 0x1_0000_0000,
        r.2 == priority_sum(receipts@, base_or_zero(base_fee), None, receipts@.len()),
{
    let base = match base_fee {
        Some(b) => b,
        None => 0,
    };
    block_stats_excluding(receipts, base, None)
}

/// Reorg depth reported when the head moves from `head` down to `new_block`:
/// the distance, capped at `u16::MAX`, or nothing when the chain did not move back.
pub open spec fn reorg_depth(head: u64, new_block: u64) -> Option<u16> {
    if new_block < head {
        if head - new_block > u16::MAX {
            Some(u16::MAX)
        } else {
            Some((head - new_block) as u16)
        }
    } else {
        None
    }
}

/// Detects reorgs based on block numbers.
#[derive(Debug)]
pub struct ReorgDetector {
    head_number: u64,
}

impl View for ReorgDetector {
    type V = u64;

    /// The current head block number.
    closed spec fn view(&self) -> u64 {
        self.head_number
    }
}

impl ReorgDetector {
    /// Create a new reorg detector, with head number zero.
    pub fn new() -> (r: Self)
        ensures
            r@ == 0,
    {
        ReorgDetector { head_number: 0 }
    }

    /// The current head block number.
    pub fn head_number(&self) -> (r: u64)
        ensures
            r == self@,
    {
        self.head_number
    }

    /// Checks a new block number against the current head number.
    /// Returns the reorg depth if the new block number is less than the current head.
    /// Always updates the internal head number to the new block number.
    pub fn on_new_block(&mut self, new_block_number: u64) -> (r: Option<u16>)
        ensures
            r == reorg_depth(old(self)@, new_block_number),
            final(self)@ == new_block_number,
    {
        let mut reorg_depth = None;
        if new_block_number < self.head_number {
            let depth_val = self.head_number - new_block_number;
            if depth_val > 0 {
                reorg_depth = Some(if depth_val > u16::MAX as u64 {
                    u16::MAX
                } else {
                    depth_val as u16
                });
            }
        }
        self.head_number = new_block_number;
        reorg_depth
    }
}

/// Law: a new block reports a reorg exactly when it is lower than the current
/// head; the depth is at least one and is the distance back, capped at `u16::MAX`.
pub proof fn law_reorg_reported_iff_head_moves_back(head: u64, new_block: u64)
    ensures
        reorg_depth(head, new_block) is Some <==> new_block < head,
        reorg_depth(head, new_block) matches Some(d) ==> 1 <= d && d as int <= head - new_block,
        reorg_depth(head, new_block) matches Some(d) ==> (d as int == head - new_block
            || d == u16::MAX),
{
}

/// Big-endian value of a byte string.
pub open spec fn be_value(s: Seq<u8>) -> nat
    decreases s.len(),
{
    if s.len() == 0 {
        0
    } else {
        be_value(s.drop_last()) * 256 + s.last() as nat
    }
}

/// `256^n`.
pub open spec fn pow256(n: nat) -> nat
    decreases n,
{
    if n == 0 { 1 } else { 256 * pow256((n - 1) as nat) }
}

proof fn lemma_be_value_bound(s: Seq<u8>)
    ensures
        be_value(s) < pow256(s.len()),
    decreases s.len(),
{
    if s.len() > 0 {
        lemma_be_value_bound(s.drop_last());
        let v = be_value(s.drop_last());
        let p = pow256(s.drop_last().len());
        assert(v * 256 + s.last() < p * 256) by (nonlinear_arith)
            requires
                v < p,
                s.last() < 256,
        ;
    }
}

/// Reads the big-endian `u64` in `data[from..from + 8]`.
fn read_be_u64(data: &[u8], from: usize) -> (r: u64)
    requires
        from + 8 <= data@.len(),
    ensures
        r == be_value(data@.subrange(from as int, from + 8)),
{
    let mut acc: u64 = 0;
    let mut i: usize = 0;
    let n = data.len();
    while i < 8
        invariant
            n == data@.len(),
            from + 8 <= data@.len(),
            i <= 8,
            acc == be_value(data@.subrange(from as int, from + i)),
        decreases 8 - i,
    {
        let ghost prefix = data@.subrange(from as int, from + i);
        proof {
            lemma_be_value_bound(prefix);
            reveal_with_fuel(pow256, 8);
            assert(pow256(prefix.len()) <= pow256(7)) by {
                lemma_pow256_mono(prefix.len(), 7);
            }
            assert(acc * 256 + 255 <= u64::MAX) by (nonlinear_arith)
                requires
                    acc < pow256(7),
                    pow256(7) == 0x100000000000000,
            ;
            let next = data@.subrange(from as int, from + i + 1);
            assert(next.drop_last() =~= prefix);
        }
        acc = acc * 256 + data[from + i] as u64;
        i = i + 1;
    }
    acc
}

proof fn lemma_pow256_mono(a: nat, b: nat)
    requires
        a <= b,
    ensures
        pow256(a) <= pow256(b),
    decreases b,
{
    if a < b {
        lemma_pow256_mono(a, (b - 1) as nat);
    }
}

/// A verified batch as read off a raw log.
#[derive(Debug, Clone, Copy)]
pub struct BatchesVerified {
    /// Id of the last verified batch.
    pub batch_id: u64,
    /// Verified block hash.
    pub block_hash: [u8; 32],
}

/// Reads a `BatchesVerified` log's data: the batch id is the big-endian
/// `u64` in bytes 24..32 (zero when the data is shorter than 32 bytes) and the
/// block hash is bytes 32..64 (all zero when the data is shorter than 64
/// bytes). A log without a block number is placed at block zero.
pub fn decode_batches_verified(data: &[u8], block_number: Option<u64>) -> (r: (BatchesVerified, u64))
    ensures
        r.0.batch_id == if data@.len() >= 32 { be_value(data@.subrange(24, 32)) } else { 0 },
        r.0.block_hash@ == if data@.len() >= 64 {
            data@.subrange(32, 64)
        } else {
            Seq::new(32, |i: int| 0u8)
        },
        r.1 == match block_number { Some(n) => n, None => 0 },
{
    let batch_id = if data.len() >= 32 {
        read_be_u64(data, 24)
    } else {
        0
    };
    let mut block_hash = [0u8; 32];
    if data.len() >= 64 {
        let mut i: usize = 0;
        while i < 32
            invariant
                data@.len() >= 64,
                i <= 32,
                block_hash@.len() == 32,
                forall|j: int| 0 <= j < i ==> block_hash@[j] == data@[32 + j],
            decreases 32 - i,
        {
            block_hash[i] = data[32 + i];
            i = i + 1;
        }
        proof {
            assert(block_hash@ =~= data@.subrange(32, 64));
        }
    } else {
        proof {
            assert(block_hash@ =~= Seq::new(32, |i: int| 0u8));
        }
    }
    let n = match block_number {
        Some(n) => n,
        None => 0,
    };
    (BatchesVerified { batch_id, block_hash }, n)
}

/// Which contract a log comes from, as the backfill reads it.
#[derive(Debug, Clone, Copy, PartialEq, Eq, Structural)]
pub enum LogSource {
    /// The log was removed by a reorg: skip it.
    Removed,
    /// Emitted by the inbox: may be a proposal, a proof or a verification.
    Inbox,
    /// Emitted by the wrapper: may be a processed forced inclusion.
    Wrapper,
    /// Emitted by another contract: skip it.
    Unrelated,
}

/// Classifies a log by whether it was removed and by its emitting address.
pub fn classify_log(
    removed: bool,
    address: &crate::bytes::AddressBytes,
    inbox: &crate::bytes::AddressBytes,
    wrapper: &crate::bytes::AddressBytes,
) -> (r: LogSource)
    ensures
        r == if removed {
            LogSource::Removed
        } else if address@ == inbox@ {
            LogSource::Inbox
        } else if address@ == wrapper@ {
            LogSource::Wrapper
        } else {
            LogSource::Unrelated
        },
{
    if removed {
        LogSource::Removed
    } else if address.same(inbox) {
        LogSource::Inbox
    } else if address.same(wrapper) {
        LogSource::Wrapper
    } else {
        LogSource::Unrelated
    }
}

} // verus!
