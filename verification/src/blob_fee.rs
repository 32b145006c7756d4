//! Blob fee computation for blob-carrying transactions.
pub use crate::l1_data_cost::calculate_blob_fee_from_receipt;
