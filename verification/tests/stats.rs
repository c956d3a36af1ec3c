use rusync::Error;
use rusync::Stats;
use rusync::SyncOptions;
use rusync::Syncer;
use rusync::entry::Entry;
use rusync::entry::Metadata;
use rusync::fsops::LinkAction;
use rusync::fsops::SyncAction;
use rusync::fsops::SyncOutcome;
use rusync::fsops::link_outcome;
use rusync::fsops::link_sync_action;
use rusync::fsops::sync_action;
use rusync::progress::ProgressInfo;
use rusync::workers::WalkTotals;

struct DummyProgressInfo {}

impl ProgressInfo for DummyProgressInfo {}

fn file_entry(description: &str, path: &str, size: usize, mtime_secs: i64, mode: u32) -> Entry {
    let metadata = Metadata { size, mtime_secs, mtime_nanos: 0, mode };
    Entry::new(description, path, Some(metadata), true, Some(false))
}

fn link_entry(description: &str, path: &str) -> Entry {
    let metadata = Metadata { size: 7, mtime_secs: 40, mtime_nanos: 0, mode: 0o777 };
    Entry::new(description, path, Some(metadata), true, Some(true))
}

fn missing_entry(description: &str, path: &str) -> Entry {
    Entry::new(description, path, None, false, None)
}

#[test]
fn one_copied_outcome_counts_once() {
    let mut stats = Stats::new();
    stats.add_outcome(&SyncOutcome::FileCopied { size: 10 });
    assert_eq!(stats.copied, 1);
    assert_eq!(stats.num_synced, 1);
    assert_eq!(stats.total_transfered, 10);
    assert_eq!(stats.up_to_date, 0);
    assert_eq!(stats.errors, 0);
}

#[test]
fn every_outcome_kind_is_counted() {
    let mut stats = Stats::new();
    stats.add_outcome(&SyncOutcome::FileCopied { size: 4 });
    stats.add_outcome(&SyncOutcome::UpToDate);
    stats.add_outcome(&SyncOutcome::SymlinkCreated);
    stats.add_outcome(&SyncOutcome::SymlinkUpdated);
    stats.add_error();
    assert_eq!(stats.num_synced, 4);
    assert_eq!(stats.copied, 1);
    assert_eq!(stats.up_to_date, 1);
    assert_eq!(stats.symlink_created, 1);
    assert_eq!(stats.symlink_updated, 1);
    assert_eq!(stats.errors, 1);
    assert_eq!(stats.total_transfered, 4);
}

#[test]
fn todo_refresh_overwrites_totals() {
    let mut stats = Stats::new();
    stats.refresh_todo(3, 300);
    stats.refresh_todo(5, 500);
    assert_eq!(stats.num_files, 5);
    assert_eq!(stats.total_size, 500);
}

#[test]
fn walk_totals_grow_with_each_file() {
    let mut totals = WalkTotals::new();
    totals.add_file(100);
    assert_eq!(totals.num_files, 1);
    assert_eq!(totals.total_size, 100);
    totals.add_file(50);
    assert_eq!(totals.num_files, 2);
    assert_eq!(totals.total_size, 150);
}

// The end-to-end scenario of one run over the tree
// {top.txt (10 bytes), a_dir/foo.exe (mode 755), a_dir/link_to_one -> one.txt},
// at the decision level: a first run over an empty destination copies the two
// files and creates the symlink; a second run with no source changes leaves
// all three entries up to date.
#[test]
fn fresh_tree_then_unchanged_tree() {
    let src_top = file_entry("top.txt", "/src/top.txt", 10, 100, 0o644);
    let src_exe = file_entry("a_dir/foo.exe", "/src/a_dir/foo.exe", 20, 100, 0o755);
    let src_link = link_entry("a_dir/link_to_one", "/src/a_dir/link_to_one");
    let target = String::from("one.txt");

    // first run: empty destination
    let mut stats = Stats::new();
    for src in [&src_top, &src_exe] {
        let dest = missing_entry(src.description(), "/dest/whatever");
        match sync_action(src, &dest) {
            SyncAction::CopyFile => {
                let size = src.metadata().unwrap().size as u64;
                stats.add_outcome(&SyncOutcome::FileCopied { size });
            }
            _ => panic!("a file missing from the destination must be copied"),
        }
    }
    let dest_link = missing_entry("a_dir/link_to_one", "/dest/a_dir/link_to_one");
    assert_eq!(sync_action(&src_link, &dest_link), SyncAction::SyncLink);
    let action = link_sync_action(&dest_link, &target, None).unwrap();
    stats.add_outcome(&link_outcome(action));

    assert_eq!(stats.copied, 2);
    assert_eq!(stats.symlink_created, 1);
    assert_eq!(stats.up_to_date, 0);
    assert_eq!(stats.errors, 0);

    // second run: the destination now mirrors the source
    let mut stats = Stats::new();
    for src in [&src_top, &src_exe] {
        let meta = *src.metadata().unwrap();
        let dest = Entry::new(
            src.description(),
            "/dest/whatever",
            Some(meta),
            true,
            Some(false),
        );
        match sync_action(src, &dest) {
            SyncAction::AlreadyUpToDate => stats.add_outcome(&SyncOutcome::UpToDate),
            _ => panic!("an unchanged file must be left alone"),
        }
    }
    let dest_link = link_entry("a_dir/link_to_one", "/dest/a_dir/link_to_one");
    assert_eq!(sync_action(&src_link, &dest_link), SyncAction::SyncLink);
    let action = link_sync_action(&dest_link, &target, Some(&target)).unwrap();
    assert_eq!(action, LinkAction::Keep);
    stats.add_outcome(&link_outcome(action));

    assert_eq!(stats.copied, 0);
    assert_eq!(stats.symlink_created, 0);
    assert_eq!(stats.up_to_date, 3);
    assert_eq!(stats.errors, 0);
}

#[test]
fn default_options_preserve_permissions() {
    let options = SyncOptions::default();
    assert!(options.preserve_permissions);
}

#[test]
fn syncer_carries_its_configuration() {
    let options = SyncOptions { preserve_permissions: false };
    let syncer = Syncer::new("/src", "/dest", options, Box::new(DummyProgressInfo {}));
    let (source, destination, options, _sink) = syncer.into_parts();
    assert_eq!(source, "/src");
    assert_eq!(destination, "/dest");
    assert!(!options.preserve_permissions);
}

#[test]
fn error_keeps_its_message() {
    let err = Error::new("something went wrong");
    assert_eq!(err.message(), "something went wrong");
}
