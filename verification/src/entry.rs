//! A filesystem object under consideration for synchronization, with the
//! metadata captured for it at discovery time.
//!
//! The snapshot holds plain values (byte size, modification time as seconds
//! and nanoseconds, permission bits) so that every decision taken over it can
//! be stated and proved; the caller that walks the real filesystem fills it
//! in from a symlink-aware stat.

use vstd::prelude::*;

verus! {

/// A captured metadata snapshot: size in bytes, modification time at the
/// finest resolution available, and POSIX permission bits (zero on platforms
/// without such bits).
#[derive(Clone, Copy, Debug, PartialEq, Eq, Structural)]
pub struct Metadata {
    /// Size of the object in bytes.
    pub size: usize,
    /// Whole seconds of the modification time, relative to the epoch.
    pub mtime_secs: i64,
    /// Nanosecond part of the modification time.
    pub mtime_nanos: u32,
    /// POSIX permission bits.
    pub mode: u32,
}

/// True when `a` records a strictly more recent modification time than `b`:
/// later in seconds, or equal in seconds and later in nanoseconds.
pub open spec fn more_recent(a: Metadata, b: Metadata) -> bool {
    a.mtime_secs > b.mtime_secs || (a.mtime_secs == b.mtime_secs && a.mtime_nanos > b.mtime_nanos)
}

/// What spec code sees of an [`Entry`]: every captured field, as plain values.
pub ghost struct EntryView {
    pub description: Seq<char>,
    pub path: Seq<char>,
    pub metadata: Option<Metadata>,
    pub exists: bool,
    pub is_link: Option<bool>,
}

/// One filesystem object (file or symlink) being considered for
/// synchronization. Immutable once constructed; created from a symlink-aware
/// stat of the source (at discovery time) or of the destination (when the
/// mirrored path is resolved).
#[derive(Clone, Debug)]
pub struct Entry {
    description: String,
    path: String,
    metadata: Option<Metadata>,
    exists: bool,
    is_link: Option<bool>,
}

impl View for Entry {
    type V = EntryView;

    closed spec fn view(&self) -> EntryView {
        EntryView {
            description: self.description@,
            path: self.path@,
            metadata: self.metadata,
            exists: self.exists,
            is_link: self.is_link,
        }
    }
}

impl Entry {
    /// Builds the descriptor for one filesystem object from the values a
    /// symlink-aware stat produced: `metadata` is the captured snapshot (or
    /// `None` when no stat succeeded), `exists` tells whether the path leads
    /// to an existing object once links are followed, and `is_link` records
    /// whether the object itself is a symlink (`None` only when the
    /// symlink-aware stat failed).
    pub fn new(
        description: &str,
        entry_path: &str,
        metadata: Option<Metadata>,
        exists: bool,
        is_link: Option<bool>,
    ) -> (r: Entry)
        ensures
            r@ == (EntryView {
                description: description@,
                path: entry_path@,
                metadata,
                exists,
                is_link,
            }),
    {
        Entry {
            description: description.to_owned(),
            path: entry_path.to_owned(),
            metadata,
            exists,
            is_link,
        }
    }

    /// The human-readable relative-path description of this entry.
    pub fn description(&self) -> (r: &String)
        ensures
            r@ == self@.description,
    {
        &self.description
    }

    /// The absolute path of this entry.
    pub fn path(&self) -> (r: &String)
        ensures
            r@ == self@.path,
    {
        &self.path
    }

    /// The captured metadata snapshot, if one could be read.
    pub fn metadata(&self) -> (r: Option<&Metadata>)
        ensures
            match r {
                Some(m) => self@.metadata == Some(*m),
                None => self@.metadata is None,
            },
    {
        self.metadata.as_ref()
    }

    /// Whether the path led to an existing object (links followed).
    pub fn path_exists(&self) -> (r: bool)
        ensures
            r == self@.exists,
    {
        self.exists
    }

    /// Whether the object itself is a symlink; `None` only when the
    /// symlink-aware stat failed, which must never be read as "not a link".
    pub fn is_link(&self) -> (r: Option<bool>)
        ensures
            r == self@.is_link,
    {
        self.is_link
    }
}

} // verus!
