//! Per-entry synchronization decisions.
//!
//! Everything here is pure: it looks at the captured [`Entry`] descriptors of
//! one source object and of its mirrored destination path and decides what the
//! engine must do — copy the file, create, replace or keep a symlink, refuse a
//! conflicting destination, or leave the entry alone. The filesystem work that
//! carries a decision out is done by the caller.

use vstd::prelude::*;

use crate::entry::{Entry, EntryView, Metadata, more_recent};
use crate::error::Error;
use vstd::string::StringExecFns;

verus! {

/// The terminal classification of processing one entry; exactly one variant
/// per entry, mutually exclusive.
#[derive(Clone, Debug, PartialEq, Eq, Structural)]
pub enum SyncOutcome {
    /// Nothing to do: the destination already matches the source.
    UpToDate,
    /// The file's contents were copied; `size` bytes were transferred.
    FileCopied { size: u64 },
    /// A destination symlink pointing at the wrong target was replaced.
    SymlinkUpdated,
    /// A symlink was created at a previously empty destination path.
    SymlinkCreated,
}

/// What the engine must do with one entry.
#[derive(Clone, Copy, Debug, PartialEq, Eq, Structural)]
pub enum SyncAction {
    /// The source is a symlink: mirror it (see [`link_sync_action`]).
    SyncLink,
    /// The source is a regular file whose copy is required.
    CopyFile,
    /// No condition for a transfer holds; the outcome is `UpToDate`.
    AlreadyUpToDate,
}

/// How to mirror a source symlink at the destination path.
#[derive(Clone, Copy, Debug, PartialEq, Eq, Structural)]
pub enum LinkAction {
    /// The destination does not exist: create a same-target symlink.
    Create,
    /// The destination is a symlink to another target: remove and recreate.
    Replace,
    /// The destination is a symlink to the same target: leave it alone.
    Keep,
}

/// True when the source's captured modification time is strictly more recent
/// than the destination's, or the destination does not exist at all.
pub open spec fn spec_more_recent_than(src: EntryView, dest: EntryView) -> bool {
    !dest.exists || more_recent(src.metadata.unwrap(), dest.metadata.unwrap())
}

/// True when no destination size is known or the two captured sizes differ.
pub open spec fn spec_different_size(src: EntryView, dest: EntryView) -> bool {
    match dest.metadata {
        None => true,
        Some(d) => d.size != src.metadata.unwrap().size,
    }
}

/// Copy is required if the destination is missing or differently sized
/// (the primary signal, so that partially written files are repaired), or if
/// the source is strictly newer.
pub open spec fn spec_needs_copy(src: EntryView, dest: EntryView) -> bool {
    spec_different_size(src, dest) || spec_more_recent_than(src, dest)
}

/// The decision taken for one entry: symlinks are mirrored as symlinks,
/// regular files are copied exactly when [`spec_needs_copy`] holds.
pub open spec fn spec_sync_action(src: EntryView, dest: EntryView) -> SyncAction {
    if src.is_link == Some(true) {
        SyncAction::SyncLink
    } else if spec_needs_copy(src, dest) {
        SyncAction::CopyFile
    } else {
        SyncAction::AlreadyUpToDate
    }
}

/// Whether the source's captured modification time is strictly more recent
/// than the destination's; a missing destination counts as outdated.
pub fn is_more_recent_than(src: &Entry, dest: &Entry) -> (r: bool)
    requires
        src@.metadata.is_some(),
        dest@.exists ==> dest@.metadata.is_some(),
    ensures
        r == spec_more_recent_than(src@, dest@),
{
    if !dest.path_exists() {
        return true;
    }
    let src_meta = src.metadata().unwrap();
    let dest_meta = dest.metadata().unwrap();
    src_meta.mtime_secs > dest_meta.mtime_secs || (src_meta.mtime_secs == dest_meta.mtime_secs
        && src_meta.mtime_nanos > dest_meta.mtime_nanos)
}

/// Whether the captured sizes of source and destination differ; a destination
/// without metadata counts as differing.
pub fn has_different_size(src: &Entry, dest: &Entry) -> (r: bool)
    requires
        src@.metadata.is_some(),
    ensures
        r == spec_different_size(src@, dest@),
{
    let src_meta = src.metadata().unwrap();
    match dest.metadata() {
        None => true,
        Some(dest_meta) => dest_meta.size != src_meta.size,
    }
}

/// Whether a transfer of the file's contents is required (see
/// [`spec_needs_copy`]).
pub fn needs_copy(src: &Entry, dest: &Entry) -> (r: bool)
    requires
        src@.metadata.is_some(),
        dest@.exists ==> dest@.metadata.is_some(),
    ensures
        r == spec_needs_copy(src@, dest@),
{
    let different_size = has_different_size(src, dest);
    let more_recent = is_more_recent_than(src, dest);
    more_recent || different_size
}

/// Decides what to do with one entry: mirror it as a symlink, copy its
/// contents, or leave it up to date.
pub fn sync_action(src: &Entry, dest: &Entry) -> (r: SyncAction)
    requires
        src@.is_link.is_some(),
        src@.is_link == Some(false) ==> src@.metadata.is_some(),
        dest@.exists ==> dest@.metadata.is_some(),
    ensures
        r == spec_sync_action(src@, dest@),
{
    let is_link = src.is_link().unwrap();
    if is_link {
        return SyncAction::SyncLink;
    }
    if needs_copy(src, dest) {
        SyncAction::CopyFile
    } else {
        SyncAction::AlreadyUpToDate
    }
}

/// The description of the error raised when a symlink would have to overwrite
/// a destination object that is not a symlink.
pub open spec fn refuse_link_message(description: Seq<char>) -> Seq<char> {
    "Refusing to replace existing path "@ + description + " by symlink"@
}

/// Decides how to mirror a source symlink at the destination path.
///
/// `dest_target` is the target read from an existing destination symlink (the
/// caller reads it exactly when the destination is known to be one), and
/// `src_target` the target read from the source link. A destination that
/// exists but is not a symlink is never deleted to make room for a link: that
/// conflict is refused with a descriptive error.
pub fn link_sync_action(dest: &Entry, src_target: &String, dest_target: Option<&String>) -> (r:
    Result<LinkAction, Error>)
    requires
        dest@.is_link == Some(true) ==> dest_target.is_some(),
    ensures
        match dest@.is_link {
            None => r == Ok::<LinkAction, Error>(LinkAction::Create),
            Some(true) => r == Ok::<LinkAction, Error>(
                if dest_target.unwrap()@ == src_target@ {
                    LinkAction::Keep
                } else {
                    LinkAction::Replace
                },
            ),
            Some(false) => r matches Err(e) && e.spec_message() == refuse_link_message(
                dest@.description,
            ),
        },
{
    match dest.is_link() {
        None => Ok(LinkAction::Create),
        Some(true) => {
            let dest_target = dest_target.unwrap();
            if *dest_target == *src_target {
                Ok(LinkAction::Keep)
            } else {
                Ok(LinkAction::Replace)
            }
        },
        Some(false) => {
            let message = "Refusing to replace existing path ".to_owned().concat(
                dest.description().as_str(),
            ).concat(" by symlink");
            proof {
                assert(message@ =~= refuse_link_message(dest@.description));
            }
            Err(Error::new(message.as_str()))
        },
    }
}

/// The outcome reported once a [`LinkAction`] has been carried out.
pub fn link_outcome(action: LinkAction) -> (r: SyncOutcome)
    ensures
        r == (match action {
            LinkAction::Create => SyncOutcome::SymlinkCreated,
            LinkAction::Replace => SyncOutcome::SymlinkUpdated,
            LinkAction::Keep => SyncOutcome::UpToDate,
        }),
{
    match action {
        LinkAction::Create => SyncOutcome::SymlinkCreated,
        LinkAction::Replace => SyncOutcome::SymlinkUpdated,
        LinkAction::Keep => SyncOutcome::UpToDate,
    }
}

/// The permission bits to propagate onto the destination after a content
/// sync: the source's captured bits for a regular file, nothing for a symlink
/// (a symlink's own permissions are meaningless).
pub fn permission_bits_to_copy(src: &Entry) -> (r: Option<u32>)
    requires
        src@.is_link.is_some(),
        src@.is_link == Some(false) ==> src@.metadata.is_some(),
    ensures
        r == (if src@.is_link == Some(true) {
            None::<u32>
        } else {
            Some(src@.metadata.unwrap().mode)
        }),
{
    if src.is_link().unwrap() {
        None
    } else {
        Some(src.metadata().unwrap().mode)
    }
}

/// The relative path from `base` to `path`, as computed by the path-diffing
/// routine, or `None` when none exists (the path is relative while the base
/// is absolute).
pub uninterp spec fn diff_of(path: Seq<char>, base: Seq<char>) -> Option<Seq<char>>;

/// Relies on pathdiff::diff_paths: the relative path from `base` to `path`,
/// a function of the two paths alone.
#[verifier::external_body]
pub fn get_rel_path(path: &str, base: &str) -> (r: Option<String>)
    ensures
        r.deep_view() == diff_of(path@, base@),
{
    pathdiff::diff_paths(path, base).map(|p| p.to_string_lossy().into_owned())
}

/// A regular file present only in the source — no destination object exists —
/// is always copied.
pub proof fn lemma_new_file_is_copied(src: EntryView, dest: EntryView)
    requires
        src.is_link == Some(false),
        src.metadata.is_some(),
        !dest.exists,
        dest.metadata is None,
    ensures
        spec_sync_action(src, dest) == SyncAction::CopyFile,
{
}

/// A destination copy of equal size whose modification time is not older than
/// the source's is left untouched: the decision is `AlreadyUpToDate`, so no
/// bytes are read and a second run over an unchanged tree copies nothing.
pub proof fn lemma_equal_size_not_older_is_up_to_date(src: EntryView, dest: EntryView)
    requires
        src.is_link == Some(false),
        src.metadata.is_some(),
        dest.exists,
        dest.metadata.is_some(),
        dest.metadata.unwrap().size == src.metadata.unwrap().size,
        !more_recent(src.metadata.unwrap(), dest.metadata.unwrap()),
    ensures
        spec_sync_action(src, dest) == SyncAction::AlreadyUpToDate,
{
}

/// A destination file whose size differs from its source counterpart — in
/// particular one that is shorter, left over from a partial write — is always
/// re-copied, even when its modification time is newer than the source's.
pub proof fn lemma_different_size_is_recopied(src: EntryView, dest: EntryView)
    requires
        src.is_link == Some(false),
        src.metadata.is_some(),
        dest.metadata.is_some(),
        dest.metadata.unwrap().size != src.metadata.unwrap().size,
    ensures
        spec_sync_action(src, dest) == SyncAction::CopyFile,
{
}

/// A broken source symlink — one whose target dangles, so that the path does
/// not lead to an existing object — is still synced as a symlink, never
/// treated as a missing file.
pub proof fn lemma_broken_link_synced_as_link(src: EntryView, dest: EntryView)
    requires
        src.is_link == Some(true),
        !src.exists,
    ensures
        spec_sync_action(src, dest) == SyncAction::SyncLink,
{
}

} // verus!
