use std::sync::Arc;
use std::sync::Mutex;
use std::sync::mpsc::channel;

use rusync::fsops::SyncOutcome;
use rusync::progress::Progress;
use rusync::progress::ProgressInfo;
use rusync::progress::ProgressMessage;
use rusync::workers::ProgressWorker;
use rusync::workers::progress_worker::compute_eta;

struct DummyProgressInfo {}

impl ProgressInfo for DummyProgressInfo {}

#[derive(Clone)]
struct RecordingSink {
    events: Arc<Mutex<Vec<String>>>,
    snapshots: Arc<Mutex<Vec<(usize, usize, usize, usize)>>>,
}

impl RecordingSink {
    fn new() -> RecordingSink {
        RecordingSink {
            events: Arc::new(Mutex::new(Vec::new())),
            snapshots: Arc::new(Mutex::new(Vec::new())),
        }
    }
}

impl ProgressInfo for RecordingSink {
    fn new_file(&mut self, name: &str) {
        self.events.lock().unwrap().push(format!("new_file {}", name));
    }

    fn done_syncing(&mut self) {
        self.events.lock().unwrap().push(String::from("done_syncing"));
    }

    fn progress(&mut self, progress: &Progress) {
        self.snapshots.lock().unwrap().push((
            progress.file_done,
            progress.total_done,
            progress.index,
            progress.num_files,
        ));
    }

    fn error(&mut self, entry: &str, _details: &str) {
        self.events.lock().unwrap().push(format!("error {}", entry));
    }

    fn end(&mut self, stats: &rusync::Stats) {
        self.events.lock().unwrap().push(format!("end {}", stats.num_synced));
    }
}

#[test]
fn aggregator_folds_the_event_stream() {
    let (sender, receiver) = channel::<ProgressMessage>();
    let sink = RecordingSink::new();
    let events = sink.events.clone();
    let snapshots = sink.snapshots.clone();

    sender.send(ProgressMessage::Todo { num_files: 2, total_size: 100 }).unwrap();
    sender.send(ProgressMessage::StartSync(String::from("a"))).unwrap();
    sender
        .send(ProgressMessage::Syncing {
            description: String::from("a"),
            size: 50,
            done: 20,
        })
        .unwrap();
    sender
        .send(ProgressMessage::Syncing {
            description: String::from("a"),
            size: 50,
            done: 30,
        })
        .unwrap();
    sender.send(ProgressMessage::DoneSyncing(SyncOutcome::FileCopied { size: 50 })).unwrap();
    sender.send(ProgressMessage::StartSync(String::from("b"))).unwrap();
    sender.send(ProgressMessage::DoneSyncing(SyncOutcome::UpToDate)).unwrap();
    sender
        .send(ProgressMessage::SyncError {
            entry: String::from("c"),
            details: String::from("boom"),
        })
        .unwrap();
    drop(sender);

    let worker = ProgressWorker::new(receiver, Box::new(sink));
    let stats = worker.start();

    assert_eq!(stats.num_files, 2);
    assert_eq!(stats.total_size, 100);
    assert_eq!(stats.num_synced, 2);
    assert_eq!(stats.copied, 1);
    assert_eq!(stats.up_to_date, 1);
    assert_eq!(stats.total_transfered, 50);
    assert_eq!(stats.errors, 1);

    let events = events.lock().unwrap();
    let expected = vec![
        String::from("new_file a"),
        String::from("done_syncing"),
        String::from("new_file b"),
        String::from("done_syncing"),
        String::from("error c"),
        String::from("end 2"),
    ];
    assert_eq!(*events, expected);

    // (file-local bytes, global bytes, file index, file count) per chunk
    let snapshots = snapshots.lock().unwrap();
    assert_eq!(*snapshots, vec![(20, 20, 1, 2), (50, 50, 1, 2)]);
}

// every discovered entry ends in exactly one terminal event, and the
// aggregator counts each exactly once: processed entries plus errors equals
// the number of terminal events
#[test]
fn ten_thousand_entries_are_all_accounted_for() {
    let (sender, receiver) = channel::<ProgressMessage>();
    let num_entries: u64 = 10_000;
    let num_errors: u64 = 7;
    for i in 0..num_entries {
        let name = format!("file-{}", i);
        sender.send(ProgressMessage::StartSync(name)).unwrap();
        sender.send(ProgressMessage::DoneSyncing(SyncOutcome::FileCopied { size: 1 })).unwrap();
    }
    for i in 0..num_errors {
        let name = format!("bad-{}", i);
        sender
            .send(ProgressMessage::SyncError { entry: name, details: String::from("boom") })
            .unwrap();
    }
    drop(sender);

    let worker = ProgressWorker::new(receiver, Box::new(DummyProgressInfo {}));
    let stats = worker.start();
    assert_eq!(stats.num_synced + stats.errors, num_entries + num_errors);
    assert_eq!(stats.num_synced, num_entries);
    assert_eq!(stats.copied, num_entries);
    assert_eq!(stats.errors, num_errors);
    assert_eq!(stats.total_transfered, num_entries);
}

#[test]
fn eta_follows_the_formula() {
    // elapsed * total_size / total_done - elapsed
    assert_eq!(compute_eta(10, 100, 50), 10);
    assert_eq!(compute_eta(3, 1000, 10), 297);
    // never below zero
    assert_eq!(compute_eta(5, 10, 100), 0);
    // nothing elapsed yet
    assert_eq!(compute_eta(0, 100, 1), 0);
}

#[test]
fn empty_stream_yields_empty_stats() {
    let (sender, receiver) = channel::<ProgressMessage>();
    drop(sender);
    let worker = ProgressWorker::new(receiver, Box::new(DummyProgressInfo {}));
    let stats = worker.start();
    assert_eq!(stats.num_synced, 0);
    assert_eq!(stats.errors, 0);
    assert_eq!(stats.num_files, 0);
}
