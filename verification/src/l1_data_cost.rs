//! Fee and cost arithmetic over transaction receipts.
use vstd::prelude::*;

use crate::bytes::AddressBytes;

verus! {

/// The fields of a transaction receipt that fee and cost computations read.
#[derive(Clone, Copy, Debug)]
pub struct ReceiptFees {
    /// Gas used by the transaction.
    pub gas_used: u64,
    /// Effective price paid per unit of gas.
    pub effective_gas_price: u128,
    /// Blob gas used, for blob-carrying transactions.
    pub blob_gas_used: Option<u64>,
    /// Blob gas price, for blob-carrying transactions.
    pub blob_gas_price: Option<u128>,
    /// Recipient of the transaction, if any.
    pub to: Option<AddressBytes>,
}

/// Product of two values, clamped to `u128::MAX`.
pub open spec fn sat_mul(a: int, b: int) -> int {
    if a * b > u128::MAX { u128::MAX as int } else { a * b }
}

/// Sum of two values, clamped to `u128::MAX`.
pub open spec fn sat_add(a: int, b: int) -> int {
    if a + b > u128::MAX { u128::MAX as int } else { a + b }
}

/// Difference of two values, clamped at zero.
pub open spec fn sat_sub(a: int, b: int) -> int {
    if a < b { 0 } else { a - b }
}

/// Fee paid for blobs: blob gas times blob gas price when both are present, else zero.
pub open spec fn blob_fee(r: ReceiptFees) -> int {
    match (r.blob_gas_used, r.blob_gas_price) {
        (Some(g), Some(p)) => sat_mul(g as int, p as int),
        _ => 0,
    }
}

/// Execution cost of a receipt: gas used times effective gas price, clamped.
pub open spec fn execution_cost(r: ReceiptFees) -> int {
    sat_mul(r.gas_used as int, r.effective_gas_price as int)
}

/// Total cost of a receipt: execution cost plus blob fee, clamped.
pub open spec fn receipt_cost(r: ReceiptFees) -> int {
    sat_add(execution_cost(r), blob_fee(r))
}

/// Whether the transaction recipient is exactly `inbox`.
pub open spec fn sent_to(to: Option<AddressBytes>, inbox: AddressBytes) -> bool {
    match to {
        Some(a) => a@ == inbox@,
        None => false,
    }
}

/// Posting cost over the first `n` transaction/receipt pairs: the clamped
/// running sum of `receipt_cost` over the pairs whose transaction goes to `inbox`.
pub open spec fn posting_cost(
    txs: Seq<Option<AddressBytes>>,
    receipts: Seq<ReceiptFees>,
    inbox: AddressBytes,
    n: nat,
) -> int
    decreases n,
{
    if n == 0 {
        0
    } else {
        let prev = posting_cost(txs, receipts, inbox, (n - 1) as nat);
        if sent_to(txs[n - 1], inbox) {
            sat_add(prev, receipt_cost(receipts[n - 1]))
        } else {
            prev
        }
    }
}

/// `a * b` for `u128`, clamped to `u128::MAX`.
pub fn saturating_mul_u128(a: u128, b: u128) -> (r: u128)
    ensures
        r == sat_mul(a as int, b as int),
{
    match a.checked_mul(b) {
        Some(p) => p,
        None => u128::MAX,
    }
}

/// Returns the total fee paid for blobs in the given receipt.
/// If the receipt does not contain blob data, `0` is returned.
pub fn calculate_blob_fee_from_receipt(receipt: &ReceiptFees) -> (r: u128)
    ensures
        r == blob_fee(*receipt),
{
    match (receipt.blob_gas_used, receipt.blob_gas_price) {
        (Some(gas_used), Some(price)) => saturating_mul_u128(gas_used as u128, price),
        _ => 0,
    }
}

/// Calculate the total cost for a single receipt (execution + blob fees).
pub fn cost_from_receipt(receipt: &ReceiptFees) -> (r: u128)
    ensures
        r == receipt_cost(*receipt),
{
    let exec_cost = saturating_mul_u128(receipt.gas_used as u128, receipt.effective_gas_price);
    let blob_cost = calculate_blob_fee_from_receipt(receipt);
    exec_cost.saturating_add(blob_cost)
}

/// Whether a recipient is exactly `inbox`.
pub fn is_sent_to(to: &Option<AddressBytes>, inbox: &AddressBytes) -> (r: bool)
    ensures
        r == sent_to(*to, *inbox),
{
    match to {
        Some(a) => a.same(inbox),
        None => false,
    }
}

/// Compute the total L1 data posting cost for the given transactions and receipts.
/// Transactions are given by their recipients; transactions and receipts are
/// paired by position and only as many pairs as the shorter list holds are read.
/// Only transactions sent to the provided inbox address are considered.
pub fn compute_l1_data_posting_cost(
    txs: &[Option<AddressBytes>],
    receipts: &[ReceiptFees],
    inbox: AddressBytes,
) -> (r: u128)
    ensures
        r == posting_cost(
            txs@,
            receipts@,
            inbox,
            if txs@.len() <= receipts@.len() { txs@.len() } else { receipts@.len() },
        ),
{
    let n = if txs.len() <= receipts.len() { txs.len() } else { receipts.len() };
    let mut total: u128 = 0;
    let mut i: usize = 0;
    while i < n
        invariant
            n <= txs@.len(),
            n <= receipts@.len(),
            i <= n,
            total == posting_cost(txs@, receipts@, inbox, i as nat),
        decreases n - i,
    {
        if is_sent_to(&txs[i], &inbox) {
            total = total.saturating_add(cost_from_receipt(&receipts[i]));
        }
        i = i + 1;
    }
    total
}

/// Law: the posting cost of a batch of transactions in which exactly one goes
/// to the inbox equals the cost of that transaction's receipt.
pub proof fn law_single_inbox_transaction_costs_its_receipt(
    txs: Seq<Option<AddressBytes>>,
    receipts: Seq<ReceiptFees>,
    inbox: AddressBytes,
    k: int,
)
    requires
        txs.len() == receipts.len(),
        0 <= k < txs.len(),
        sent_to(txs[k], inbox),
        forall|j: int| 0 <= j < txs.len() && j != k ==> !sent_to(txs[j], inbox),
    ensures
        posting_cost(txs, receipts, inbox, txs.len()) == receipt_cost(receipts[k]),
{
    lemma_posting_cost_single(txs, receipts, inbox, k, txs.len());
}

proof fn lemma_posting_cost_single(
    txs: Seq<Option<AddressBytes>>,
    receipts: Seq<ReceiptFees>,
    inbox: AddressBytes,
    k: int,
    n: nat,
)
    requires
        n <= txs.len(),
        0 <= k < txs.len(),
        sent_to(txs[k], inbox),
        forall|j: int| 0 <= j < txs.len() && j != k ==> !sent_to(txs[j], inbox),
    ensures
        posting_cost(txs, receipts, inbox, n) == if k < n { receipt_cost(receipts[k]) } else { 0 },
    decreases n,
{
    if n > 0 {
        lemma_posting_cost_single(txs, receipts, inbox, k, (n - 1) as nat);
    }
}

/// Law: filtering by recipient never raises the cost: the posting cost over
/// the first `n` pairs never exceeds the clamped sum of all `n` receipt costs.
pub proof fn law_posting_cost_bounded_by_all_receipts(
    txs: Seq<Option<AddressBytes>>,
    receipts: Seq<ReceiptFees>,
    inbox: AddressBytes,
    n: nat,
)
    requires
        n <= txs.len(),
        n <= receipts.len(),
    ensures
        posting_cost(txs, receipts, inbox, n) <= all_receipts_cost(receipts, n),
    decreases n,
{
    if n > 0 {
        law_posting_cost_bounded_by_all_receipts(txs, receipts, inbox, (n - 1) as nat);
    }
}

/// Clamped running sum of `receipt_cost` over the first `n` receipts.
pub open spec fn all_receipts_cost(receipts: Seq<ReceiptFees>, n: nat) -> int
    decreases n,
{
    if n == 0 {
        0
    } else {
        sat_add(all_receipts_cost(receipts, (n - 1) as nat), receipt_cost(receipts[n - 1]))
    }
}

} // verus!
