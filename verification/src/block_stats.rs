//! Aggregated gas and priority-fee statistics over the receipts of a block.
use vstd::prelude::*;

use crate::bytes::AddressBytes;
use crate::l1_data_cost::{sat_mul, sat_sub, sent_to, ReceiptFees};

verus! {

/// Whether a receipt takes part in the gas and fee sums: every receipt when
/// nothing is excluded, else every receipt not sent to the excluded address.
pub open spec fn counted(r: ReceiptFees, excluded: Option<AddressBytes>) -> bool {
    match excluded {
        Some(a) => !sent_to(r.to, a),
        None => true,
    }
}

/// Priority fee of one receipt: the part of its gas price above `base`,
/// times its gas, each step clamped.
pub open spec fn priority_fee(r: ReceiptFees, base: int) -> int {
    sat_mul(sat_sub(r.effective_gas_price as int, base), r.gas_used as int)
}

/// Sum of the gas used by the counted receipts among the first `n`.
pub open spec fn gas_sum(rs: Seq<ReceiptFees>, excluded: Option<AddressBytes>, n: nat) -> int
    decreases n,
{
    if n == 0 {
        0
    } else {
        gas_sum(rs, excluded, (n - 1) as nat) + if counted(rs[n - 1], excluded) {
            rs[n - 1].gas_used as int
        } else {
            0
        }
    }
}

/// Sum of the priority fees of the counted receipts among the first `n`.
pub open spec fn priority_sum(
    rs: Seq<ReceiptFees>,
    base: int,
    excluded: Option<AddressBytes>,
    n: nat,
) -> int
    decreases n,
{
    if n == 0 {
        0
    } else {
        priority_sum(rs, base, excluded, (n - 1) as nat) + if counted(rs[n - 1], excluded) {
            priority_fee(rs[n - 1], base)
        } else {
            0
        }
    }
}

proof fn lemma_sums_bounded(
    rs: Seq<ReceiptFees>,
    base: int,
    excluded: Option<AddressBytes>,
    n: nat,
)
    ensures
        0 <= gas_sum(rs, excluded, n) <= n * (u64::MAX as int),
        0 <= priority_sum(rs, base, excluded, n),
    decreases n,
{
    if n > 0 {
        lemma_sums_bounded(rs, base, excluded, (n - 1) as nat);
        assert(n * (u64::MAX as int) == (n - 1) * (u64::MAX as int) + u64::MAX) by (nonlinear_arith);
    }
}

proof fn lemma_sums_grow(
    rs: Seq<ReceiptFees>,
    base: int,
    excluded: Option<AddressBytes>,
    m: nat,
    n: nat,
)
    requires
        m <= n,
    ensures
        gas_sum(rs, excluded, m) <= gas_sum(rs, excluded, n),
        gas_sum(rs, excluded, n) <= n * (u64::MAX as int),
        priority_sum(rs, base, excluded, m) <= priority_sum(rs, base, excluded, n),
    decreases n - m,
{
    lemma_sums_bounded(rs, base, excluded, n);
    if m < n {
        lemma_sums_grow(rs, base, excluded, m, (n - 1) as nat);
        lemma_sums_bounded(rs, base, excluded, (n - 1) as nat);
    }
}

/// Gas and priority-fee sums over `receipts`, leaving out the receipts sent to
/// `excluded`, and the number of all receipts truncated to 32 bits.
pub(crate) fn block_stats_excluding(
    receipts: &[ReceiptFees],
    base_fee: u64,
    excluded: Option<AddressBytes>,
) -> (r: (u128, u32, u128))
    requires
        priority_sum(receipts@, base_fee as int, excluded, receipts@.len()) <= u128::MAX,
    ensures
        r.0 == gas_sum(receipts@, excluded, receipts@.len()),
        r.1 as int == receipts@.len() % 0x1_0000_0000,
        r.2 == priority_sum(receipts@, base_fee as int, excluded, receipts@.len()),
{
    let base = base_fee as u128;
    let mut sum_gas_used: u128 = 0;
    let mut sum_priority_fee: u128 = 0;
    let n = receipts.len();
    let mut i: usize = 0;
    while i < n
        invariant
            n == receipts@.len(),
            i <= n,
            base == base_fee,
            sum_gas_used == gas_sum(receipts@, excluded, i as nat),
            sum_priority_fee == priority_sum(receipts@, base_fee as int, excluded, i as nat),
            priority_sum(receipts@, base_fee as int, excluded, n as nat) <= u128::MAX,
        decreases n - i,
    {
        let receipt = &receipts[i];
        let skip = match &excluded {
            Some(a) => crate::l1_data_cost::is_sent_to(&receipt.to, a),
            None => false,
        };
        proof {
            lemma_sums_grow(receipts@, base_fee as int, excluded, (i + 1) as nat, n as nat);
            assert((i + 1) * (u64::MAX as int) <= usize::MAX * (u64::MAX as int)) by (nonlinear_arith)
                requires i + 1 <= usize::MAX;
            assert(usize::MAX * (u64::MAX as int) <= u128::MAX) by (nonlinear_arith)
                requires usize::MAX <= u64::MAX;
        }
        if !skip {
            let gas = receipt.gas_used as u128;
            sum_gas_used = sum_gas_used + gas;
            let priority_per_gas = receipt.effective_gas_price.saturating_sub(base);
            sum_priority_fee = sum_priority_fee + crate::l1_data_cost::saturating_mul_u128(priority_per_gas, gas);
        }
        i = i + 1;
    }
    let tx_count = n as u32;
    proof {
        assert(n as u32 == (n as u64) % 0x1_0000_0000u64) by (bit_vector);
    }
    (sum_gas_used, tx_count, sum_priority_fee)
}

/// Compute aggregated gas and priority fee statistics for a set of receipts,
/// excluding anchor transactions from gas and fee calculations.
///
/// Returns a tuple of `(total_gas_used, transaction_count, total_priority_fee)`.
/// The gas and fee totals exclude the anchor transaction, but the transaction
/// count includes all transactions (including the anchor).
pub fn compute_block_stats(
    receipts: &[ReceiptFees],
    base_fee: u64,
    anchor_address: AddressBytes,
) -> (r: (u128, u32, u128))
    requires
        priority_sum(receipts@, base_fee as int, Some(anchor_address), receipts@.len())
            <= u128::MAX,
    ensures
        r.0 == gas_sum(receipts@, Some(anchor_address), receipts@.len()),
        r.1 as int == receipts@.len() % 0x1_0000_0000,
        r.2 == priority_sum(receipts@, base_fee as int, Some(anchor_address), receipts@.len()),
{
    block_stats_excluding(receipts, base_fee, Some(anchor_address))
}

/// Check if a receipt is for an anchor transaction.
pub fn is_anchor_transaction(receipt: &ReceiptFees, anchor_address: AddressBytes) -> (r: bool)
    ensures
        r == sent_to(receipt.to, anchor_address),
{
    crate::l1_data_cost::is_sent_to(&receipt.to, &anchor_address)
}

/// Law: the anchor transaction never adds gas or fees: appending a receipt
/// sent to the anchor leaves both sums unchanged, while any other receipt adds
/// its own gas and priority fee.
pub proof fn law_anchor_adds_nothing(
    rs: Seq<ReceiptFees>,
    extra: ReceiptFees,
    base: int,
    anchor: AddressBytes,
)
    ensures
        sent_to(extra.to, anchor) ==> gas_sum(rs.push(extra), Some(anchor), rs.len() + 1)
            == gas_sum(rs, Some(anchor), rs.len()),
        sent_to(extra.to, anchor) ==> priority_sum(rs.push(extra), base, Some(anchor), rs.len() + 1)
            == priority_sum(rs, base, Some(anchor), rs.len()),
        !sent_to(extra.to, anchor) ==> gas_sum(rs.push(extra), Some(anchor), rs.len() + 1)
            == gas_sum(rs, Some(anchor), rs.len()) + extra.gas_used,
        !sent_to(extra.to, anchor) ==> priority_sum(rs.push(extra), base, Some(anchor), rs.len() + 1)
            == priority_sum(rs, base, Some(anchor), rs.len()) + priority_fee(extra, base),
{
    lemma_prefix_sums_unchanged(rs, extra, base, Some(anchor), rs.len());
}

proof fn lemma_prefix_sums_unchanged(
    rs: Seq<ReceiptFees>,
    extra: ReceiptFees,
    base: int,
    excluded: Option<AddressBytes>,
    n: nat,
)
    requires
        n <= rs.len(),
    ensures
        gas_sum(rs.push(extra), excluded, n) == gas_sum(rs, excluded, n),
        priority_sum(rs.push(extra), base, excluded, n) == priority_sum(rs, base, excluded, n),
    decreases n,
{
    if n > 0 {
        lemma_prefix_sums_unchanged(rs, extra, base, excluded, (n - 1) as nat);
        assert(rs.push(extra)[n - 1] == rs[n - 1]);
    }
}

} // verus!
