//! Running statistics of a sync operation, its configuration, and the
//! [`Syncer`] entry point.

use vstd::prelude::*;

use crate::clock::{duration_zero, elapsed_since, instant_now};
use crate::fsops::SyncOutcome;
use crate::progress::ProgressInfo;

verus! {

/// `x + 1`, stopping at the largest representable value instead of wrapping.
pub open spec fn bump(x: u64) -> u64 {
    if x == u64::MAX {
        x
    } else {
        (x + 1) as u64
    }
}

/// `x + y`, stopping at the largest representable value instead of wrapping.
pub open spec fn sat_add(x: u64, y: u64) -> u64 {
    if x + y > u64::MAX {
        u64::MAX
    } else {
        (x + y) as u64
    }
}

/// `x + y` on `usize`, stopping at the largest representable value.
pub open spec fn sat_add_usize(x: usize, y: usize) -> usize {
    if x + y > usize::MAX {
        usize::MAX
    } else {
        (x + y) as usize
    }
}

/// Increments a counter, saturating instead of overflowing.
pub fn bump_u64(x: u64) -> (r: u64)
    ensures
        r == bump(x),
{
    if x == u64::MAX {
        x
    } else {
        x + 1
    }
}

/// Adds two counters, saturating instead of overflowing.
pub fn sat_add_u64(x: u64, y: u64) -> (r: u64)
    ensures
        r == sat_add(x, y),
{
    if y > u64::MAX - x {
        u64::MAX
    } else {
        x + y
    }
}

/// Adds two byte counts, saturating instead of overflowing.
pub fn sat_add_us(x: usize, y: usize) -> (r: usize)
    ensures
        r == sat_add_usize(x, y),
{
    if y > usize::MAX - x {
        usize::MAX
    } else {
        x + y
    }
}

/// `x` squeezed into `usize`, stopping at the largest representable value.
pub open spec fn clamp_to_usize(x: u64) -> usize {
    if x > usize::MAX {
        usize::MAX
    } else {
        x as usize
    }
}

/// Converts a counter to `usize`, saturating instead of overflowing.
pub fn clamp_usize(x: u64) -> (r: usize)
    ensures
        r == clamp_to_usize(x),
{
    if x > usize::MAX as u64 {
        usize::MAX
    } else {
        x as usize
    }
}

/// The counters of a [`Stats`] accumulator, as spec code sees them.
pub ghost struct StatsView {
    pub num_files: u64,
    pub total_size: usize,
    pub total_transfered: u64,
    pub num_synced: u64,
    pub up_to_date: u64,
    pub copied: u64,
    pub errors: u64,
    pub symlink_created: u64,
    pub symlink_updated: u64,
}

impl StatsView {
    /// Every counter at zero: the state of a freshly created accumulator.
    pub open spec fn zero() -> StatsView {
        StatsView {
            num_files: 0,
            total_size: 0,
            total_transfered: 0,
            num_synced: 0,
            up_to_date: 0,
            copied: 0,
            errors: 0,
            symlink_created: 0,
            symlink_updated: 0,
        }
    }

    /// The per-outcome counters never pass the processed-entries counter, and
    /// as long as that counter has not saturated it is exactly the sum of the
    /// four of them.
    pub open spec fn consistent(self) -> bool {
        &&& self.up_to_date <= self.num_synced
        &&& self.copied <= self.num_synced
        &&& self.symlink_created <= self.num_synced
        &&& self.symlink_updated <= self.num_synced
        &&& self.num_synced < u64::MAX ==> self.num_synced == self.up_to_date + self.copied
            + self.symlink_created + self.symlink_updated
    }
}

/// Folds one entry's outcome into the counters: the processed-entries counter
/// rises by one, together with the counter of the outcome's own kind, and a
/// copy also adds the transferred bytes.
pub open spec fn spec_add_outcome(v: StatsView, outcome: SyncOutcome) -> StatsView {
    let with_synced = StatsView { num_synced: bump(v.num_synced), ..v };
    match outcome {
        SyncOutcome::UpToDate => StatsView {
            up_to_date: bump(with_synced.up_to_date),
            ..with_synced
        },
        SyncOutcome::FileCopied { size } => StatsView {
            copied: bump(with_synced.copied),
            total_transfered: sat_add(with_synced.total_transfered, size),
            ..with_synced
        },
        SyncOutcome::SymlinkUpdated => StatsView {
            symlink_updated: bump(with_synced.symlink_updated),
            ..with_synced
        },
        SyncOutcome::SymlinkCreated => StatsView {
            symlink_created: bump(with_synced.symlink_created),
            ..with_synced
        },
    }
}

/// Folding an outcome into consistent counters leaves them consistent.
pub proof fn lemma_add_outcome_consistent(v: StatsView, outcome: SyncOutcome)
    requires
        v.consistent(),
    ensures
        spec_add_outcome(v, outcome).consistent(),
{
}

/// Each outcome moves exactly the counter of its own kind by one — a copied
/// file raises `copied`, a skipped one raises `up_to_date`, a created or
/// replaced symlink raises its own counter — and leaves every other
/// per-outcome counter alone.
pub proof fn lemma_outcome_counts_its_kind(v: StatsView, outcome: SyncOutcome)
    requires
        v.up_to_date < u64::MAX,
        v.copied < u64::MAX,
        v.symlink_created < u64::MAX,
        v.symlink_updated < u64::MAX,
    ensures
        ({
            let folded = spec_add_outcome(v, outcome);
            match outcome {
                SyncOutcome::FileCopied { size } => folded.copied == v.copied + 1
                    && folded.up_to_date == v.up_to_date && folded.symlink_created
                    == v.symlink_created && folded.symlink_updated == v.symlink_updated,
                SyncOutcome::UpToDate => folded.up_to_date == v.up_to_date + 1 && folded.copied
                    == v.copied && folded.symlink_created == v.symlink_created
                    && folded.symlink_updated == v.symlink_updated,
                SyncOutcome::SymlinkCreated => folded.symlink_created == v.symlink_created + 1
                    && folded.copied == v.copied && folded.up_to_date == v.up_to_date
                    && folded.symlink_updated == v.symlink_updated,
                SyncOutcome::SymlinkUpdated => folded.symlink_updated == v.symlink_updated + 1
                    && folded.copied == v.copied && folded.up_to_date == v.up_to_date
                    && folded.symlink_created == v.symlink_created,
            }
        }),
{
}

/// The statistics accumulated over one sync run, returned to the caller once
/// every stage has finished.
#[derive(Debug)]
pub struct Stats {
    /// Number of files in the source
    pub num_files: u64,
    /// Sum of the sizes of all the files in the source
    pub total_size: usize,
    /// Sum of the sizes of all the files that were synced
    pub total_transfered: u64,
    /// Number of files transfered (should match `num_files`
    /// if no error)
    pub num_synced: u64,
    /// Number of files for which the copy was skipped
    pub up_to_date: u64,
    /// Number of files that were copied
    pub copied: u64,
    /// Number of errors
    pub errors: u64,
    /// Number of symlink created in the destination folder
    pub symlink_created: u64,
    /// Number of symlinks updated in the destination folder
    pub symlink_updated: u64,
    /// Duration of the transfer
    pub duration: std::time::Duration,
    start: std::time::Instant,
}

impl View for Stats {
    type V = StatsView;

    closed spec fn view(&self) -> StatsView {
        StatsView {
            num_files: self.num_files,
            total_size: self.total_size,
            total_transfered: self.total_transfered,
            num_synced: self.num_synced,
            up_to_date: self.up_to_date,
            copied: self.copied,
            errors: self.errors,
            symlink_created: self.symlink_created,
            symlink_updated: self.symlink_updated,
        }
    }
}

impl Stats {
    /// The measured duration, as spec code sees it.
    pub closed spec fn spec_duration(&self) -> std::time::Duration {
        self.duration
    }

    /// A fresh accumulator: every counter at zero, the wall clock started at
    /// the moment of creation.
    #[allow(clippy::new_without_default)]
    pub fn new() -> (r: Stats)
        ensures
            r@ == StatsView::zero(),
    {
        Stats {
            num_files: 0,
            total_size: 0,
            total_transfered: 0,
            num_synced: 0,
            up_to_date: 0,
            copied: 0,
            errors: 0,
            symlink_created: 0,
            symlink_updated: 0,
            start: instant_now(),
            duration: duration_zero(),
        }
    }

    /// Restarts the wall clock; no counter changes.
    pub fn start(&mut self)
        ensures
            final(self)@ == old(self)@,
            final(self).spec_duration() == old(self).spec_duration(),
    {
        self.start = instant_now();
    }

    /// Stops the wall clock, fixing `duration` to the time elapsed since the
    /// clock was started; no counter changes.
    pub fn stop(&mut self)
        ensures
            final(self)@ == old(self)@,
    {
        self.duration = elapsed_since(&self.start);
    }

    /// The duration measured by the last call to `stop`.
    pub fn duration(&self) -> (r: std::time::Duration)
        ensures
            r == self.spec_duration(),
    {
        self.duration
    }

    /// The latest total number of files the walker has discovered.
    pub fn get_num_files(&self) -> (r: u64)
        ensures
            r == self@.num_files,
    {
        self.num_files
    }

    /// The latest total size of the discovered source files, in bytes.
    pub fn get_total_size(&self) -> (r: usize)
        ensures
            r == self@.total_size,
    {
        self.total_size
    }

    /// Refreshes the running discovery totals with the latest `Todo`
    /// figures; they can grow mid-run, since the walker streams discoveries.
    pub fn refresh_todo(&mut self, num_files: u64, total_size: usize)
        ensures
            final(self)@ == (StatsView { num_files, total_size, ..old(self)@ }),
            final(self).spec_duration() == old(self).spec_duration(),
    {
        self.num_files = num_files;
        self.total_size = total_size;
    }

    /// Records one entry that could not be synced.
    pub fn add_error(&mut self)
        ensures
            final(self)@ == (StatsView { errors: bump(old(self)@.errors), ..old(self)@ }),
            final(self).spec_duration() == old(self).spec_duration(),
    {
        self.errors = bump_u64(self.errors);
    }

    /// Folds one entry's outcome into the counters (see
    /// [`spec_add_outcome`]).
    pub fn add_outcome(&mut self, outcome: &SyncOutcome)
        ensures
            final(self)@ == spec_add_outcome(old(self)@, *outcome),
            final(self).spec_duration() == old(self).spec_duration(),
    {
        self.num_synced = bump_u64(self.num_synced);
        match outcome {
            SyncOutcome::FileCopied { size } => {
                self.copied = bump_u64(self.copied);
                self.total_transfered = sat_add_u64(self.total_transfered, *size);
            },
            SyncOutcome::UpToDate => {
                self.up_to_date = bump_u64(self.up_to_date);
            },
            SyncOutcome::SymlinkUpdated => {
                self.symlink_updated = bump_u64(self.symlink_updated);
            },
            SyncOutcome::SymlinkCreated => {
                self.symlink_created = bump_u64(self.symlink_created);
            },
        }
    }
}

/// The immutable per-run configuration.
#[derive(Copy, Clone)]
pub struct SyncOptions {
    /// Whether to propagate the source's permission bits onto the destination
    /// after its contents are synced (a no-op on platforms without such
    /// bits).
    pub preserve_permissions: bool,
}

impl Default for SyncOptions {
    /// By default permissions are preserved.
    fn default() -> (r: Self)
        ensures
            r.preserve_permissions,
    {
        Self { preserve_permissions: true }
    }
}

/// The entry point of a sync run: the two root paths, the configuration, and
/// the progress sink that will receive every notification.
pub struct Syncer {
    source: String,
    destination: String,
    options: SyncOptions,
    progress_info: Box<dyn ProgressInfo>,
}

impl Syncer {
    /// The source root this syncer was created with.
    pub closed spec fn spec_source(&self) -> Seq<char> {
        self.source@
    }

    /// The destination root this syncer was created with.
    pub closed spec fn spec_destination(&self) -> Seq<char> {
        self.destination@
    }

    /// The configuration this syncer was created with.
    pub closed spec fn spec_options(&self) -> SyncOptions {
        self.options
    }

    /// Bundles the two root paths, the options and the progress sink of one
    /// run.
    pub fn new(
        source: &str,
        destination: &str,
        options: SyncOptions,
        progress_info: Box<dyn ProgressInfo>,
    ) -> (r: Syncer)
        ensures
            r.spec_source() == source@,
            r.spec_destination() == destination@,
            r.spec_options() == options,
    {
        Syncer {
            source: source.to_owned(),
            destination: destination.to_owned(),
            options,
            progress_info,
        }
    }

    /// Releases the bundled values to the caller that runs the pipeline.
    pub fn into_parts(self) -> (r: (String, String, SyncOptions, Box<dyn ProgressInfo>))
        ensures
            r.0@ == self.spec_source(),
            r.1@ == self.spec_destination(),
            r.2 == self.spec_options(),
    {
        (self.source, self.destination, self.options, self.progress_info)
    }
}

} // verus!
