//! Database rows for L1 heads and proposed batches.
use vstd::prelude::*;

use crate::bytes::{AddressBytes, HashBytes};

verus! {

/// L1 head row.
#[derive(Debug, Clone, Copy)]
pub struct L1HeadEvent {
    /// L1 block number.
    pub l1_block_number: u64,
    /// Block hash.
    pub block_hash: HashBytes,
    /// Slot.
    pub slot: u64,
    /// Block timestamp.
    pub block_ts: u64,
}

impl L1HeadEvent {
    /// The row stored for an L1 block.
    pub fn from_block(number: u64, hash: HashBytes, slot: u64, timestamp: u64) -> (r: Self)
        ensures
            r.l1_block_number == number,
            r.block_hash == hash,
            r.slot == slot,
            r.block_ts == timestamp,
    {
        L1HeadEvent { l1_block_number: number, block_hash: hash, slot, block_ts: timestamp }
    }
}

/// What a batch row is built from.
#[derive(Debug, Clone, Copy)]
pub struct ProposedBatch {
    /// L1 block the batch was proposed in.
    pub proposed_in: u64,
    /// Batch id.
    pub batch_id: u64,
    /// Number of blocks in the batch.
    pub block_count: usize,
    /// Proposer address.
    pub proposer: AddressBytes,
    /// Number of blob hashes of the batch.
    pub blob_hash_count: usize,
    /// Total size of the blobs in bytes.
    pub blob_byte_size: u32,
}

/// Batch row.
#[derive(Debug, Clone, Copy)]
pub struct BatchRow {
    /// L1 block number.
    pub l1_block_number: u64,
    /// Batch ID.
    pub batch_id: u64,
    /// Batch size (number of blocks).
    pub batch_size: u16,
    /// Proposer address.
    pub proposer_addr: AddressBytes,
    /// Blob count.
    pub blob_count: u8,
    /// Blob total bytes.
    pub blob_total_bytes: u32,
}

/// Why a batch does not fit a row.
#[derive(Debug, Clone, Copy, PartialEq, Eq, Structural)]
pub enum BatchRowError {
    /// More blocks than a `u16` holds.
    TooManyBlocks,
    /// More blobs than a `u8` holds.
    TooManyBlobs,
}

impl BatchRow {
    /// Builds the row of a proposed batch; the block count must fit in 16 bits
    /// and the blob count in 8 bits.
    pub fn try_from(batch: &ProposedBatch) -> (r: Result<Self, BatchRowError>)
        ensures
            batch.block_count > u16::MAX ==> r == Err::<Self, BatchRowError>(BatchRowError::TooManyBlocks),
            batch.block_count <= u16::MAX && batch.blob_hash_count > u8::MAX ==> r == Err::<
                Self,
                BatchRowError,
            >(BatchRowError::TooManyBlobs),
            batch.block_count <= u16::MAX && batch.blob_hash_count <= u8::MAX ==> (r matches Ok(row)
                && row.l1_block_number == batch.proposed_in && row.batch_id == batch.batch_id
                && row.batch_size == batch.block_count && row.proposer_addr == batch.proposer
                && row.blob_count == batch.blob_hash_count && row.blob_total_bytes
                == batch.blob_byte_size),
    {
        if batch.block_count > 65535 {
            return Err(BatchRowError::TooManyBlocks);
        }
        if batch.blob_hash_count > 255 {
            return Err(BatchRowError::TooManyBlobs);
        }
        Ok(BatchRow {
            l1_block_number: batch.proposed_in,
            batch_id: batch.batch_id,
            batch_size: batch.block_count as u16,
            proposer_addr: batch.proposer,
            blob_count: batch.blob_hash_count as u8,
            blob_total_bytes: batch.blob_byte_size,
        })
    }
}

} // verus!
