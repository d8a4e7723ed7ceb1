//! Compaction scheduling for an LSM-tree storage engine: a deduplicating
//! request channel keyed by compaction group, a round-robin registry of
//! compactor workers, and the decisions of the dispatch loop that pulls tasks
//! and hands them to workers. Beside them stand two plan and connector types
//! of the surrounding system: the streaming filter node and the source split.
pub mod dispatch;
pub mod request_channel;
pub mod split;
pub mod stream_filter;
pub mod worker_registry;
