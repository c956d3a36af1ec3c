//! The walker's running discovery totals.
//!
//! The walker itself blocks on filesystem syscalls, so the traversal loop
//! lives with the caller; what is kept here is the accounting it publishes:
//! after every discovered file both totals grow, and the `Todo` message
//! carries exactly the new figures, so the totals a run publishes are
//! monotonically non-decreasing.

use vstd::prelude::*;

use crate::progress::ProgressMessage;
use crate::sync::{bump, bump_u64, sat_add_us, sat_add_usize};

verus! {

/// Running cumulative totals of the source files discovered so far.
pub struct WalkTotals {
    /// Number of non-directory entries discovered.
    pub num_files: u64,
    /// Sum of their sizes, in bytes.
    pub total_size: usize,
}

impl WalkTotals {
    /// Starts a fresh count: nothing discovered yet.
    pub fn new() -> (r: WalkTotals)
        ensures
            r.num_files == 0,
            r.total_size == 0,
    {
        WalkTotals { num_files: 0, total_size: 0 }
    }

    /// Accounts for one newly discovered file of `size` bytes and returns the
    /// refreshed `Todo` totals to publish: both counters grow (saturating),
    /// never shrink, and the message carries exactly the new values.
    pub fn add_file(&mut self, size: usize) -> (m: ProgressMessage)
        ensures
            final(self).num_files == bump(old(self).num_files),
            final(self).total_size == sat_add_usize(old(self).total_size, size),
            old(self).num_files <= final(self).num_files,
            old(self).total_size <= final(self).total_size,
            m == (ProgressMessage::Todo {
                num_files: final(self).num_files,
                total_size: final(self).total_size,
            }),
    {
        self.num_files = bump_u64(self.num_files);
        self.total_size = sat_add_us(self.total_size, size);
        ProgressMessage::Todo { num_files: self.num_files, total_size: self.total_size }
    }
}

} // verus!
