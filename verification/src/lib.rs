//! Continuously archives blocks from a source chain onto an archival chain.
//!
//! Two coordinated streams make progress independently: live-sync walks
//! forward from a configured start height, while backfill covers the range
//! from genesis up to (but never reaching) that start height.  The modules
//! here hold the verified core: the stream coordinator and its continuity
//! invariant, the progress-store bookkeeping, the block normalizer and
//! decoder, the deterministic binary envelope, and the compression step.

pub mod coordinator;
pub mod progress;
pub mod compress;
pub mod block_type;
pub mod archive_block;
pub mod json;
pub mod schema;
pub mod get_block;
