//! The per-stage building blocks of the pipeline: the walker's running
//! totals and the aggregator that folds the event stream into statistics.

pub mod progress_worker;
pub mod walk_worker;

pub use progress_worker::ProgressWorker;
pub use walk_worker::WalkTotals;
