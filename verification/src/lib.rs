//! A verified core for a multi-producer message transport with byte-level
//! backpressure accounting, a bounded background ingestion pipeline, and the
//! bookkeeping of a viewer's performance and cache machinery.
//!
//! The cross-thread transport itself is provided by `crossbeam`'s channels
//! and is used through a small set of trusted wrappers in `transport`;
//! everything that decides, counts or classifies is verified here. The
//! ordering and accounting laws of the transport are stated and proved over
//! a sequential model in [`flow`].

pub mod annotation_map_cache;
pub mod channel;
pub mod flow;
pub mod ingestion_worker;
pub mod performance_panel;
pub mod statistics;
pub mod time_range;
mod transport;
pub mod visualizable_entities_cache;

pub use channel::Receiver;
pub use channel::Sender;
pub use channel::smart_channel;
pub use ingestion_worker::IngestionWorker;
pub use performance_panel::PerformancePanel;
pub use statistics::compute_statistics_from_chunks;
pub use time_range::AbsoluteTimeRange;
pub use time_range::AbsoluteTimeRangeF;
pub use time_range::NonMinI64;
pub use time_range::TimeReal;
pub use visualizable_entities_cache::VisualizableEntitiesCache;
