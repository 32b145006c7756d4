//! Verified core of a monitoring service for a rollup network: fee and cost
//! arithmetic, reorg and gap detection, event bookkeeping, rate limiting and
//! the decisions that open and resolve status-page incidents.
use vstd::prelude::*;

pub mod active_incidents;
pub mod blob_fee;
pub mod block_stats;
pub mod bytes;
pub mod config_check;
pub mod extractor;
pub mod gap_detection;
pub mod incident;
pub mod inserter;
pub mod l1_data_cost;
pub mod messages;
pub mod monitors;
pub mod nats;
pub mod processor;
pub mod rate_limiter;
pub mod reorg_detection;
pub mod retries;
pub mod server;
pub mod text;

verus! {
} // verus!
