//! rusync
//!
//! Copies the contents of one directory tree into another, transferring only
//! the files that are missing, resized, or newer in the source, and
//! replicating symbolic links.
//!
//! Start with the [Syncer](sync/struct.Syncer.html) struct; customize output
//! by implementing the [ProgressInfo](progress/trait.ProgressInfo.html) trait.

use vstd::prelude::*;

pub mod clock;
pub mod console_info;
pub mod entry;
pub mod error;
pub mod fsops;
pub mod progress;
pub mod sync;
pub mod workers;

pub use crate::error::Error;
pub use crate::sync::Stats;
pub use crate::sync::SyncOptions;
pub use crate::sync::Syncer;

verus! {

} // verus!
