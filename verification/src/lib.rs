//! The in-memory core of a sequencer: the updates gathered for the open miniblock
//! and for the open L1 batch, kept consistent by an updates manager.

pub mod hashing;
pub mod healthcheck;
pub mod l1_batch_updates;
pub mod miniblock_updates;
pub mod primitives;
pub mod progress;
pub mod protocol_versions;
pub mod records;
pub mod storage_writes_deduplicator;
pub mod updates;
