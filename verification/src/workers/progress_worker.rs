//! The aggregator: the terminal consumer of the event stream.
//!
//! It receives every message both other stages send, folds outcomes and
//! errors into the [`Stats`] accumulator, tracks the per-file and global byte
//! counts, computes an ETA, and forwards human-facing updates to the progress
//! sink. What the accumulator goes through is pinned down by
//! [`spec_apply_message`]: the returned statistics are the fold of the
//! received message sequence over that step function.

use vstd::prelude::*;

use crate::clock::{duration_secs, elapsed_since, instant_now};
use crate::progress::{Progress, ProgressInfo, ProgressMessage};
use crate::sync::{
    Stats,
    StatsView,
    bump,
    clamp_usize,
    lemma_add_outcome_consistent,
    sat_add_us,
    spec_add_outcome,
};
use std::sync::mpsc::Receiver;

verus! {

#[verifier::external_type_specification]
#[verifier::external_body]
#[verifier::reject_recursive_types(T)]
pub struct ExReceiver<T>(Receiver<T>);

/// Relies on std::sync::mpsc::Receiver::recv: hands over one message sent
/// into the channel, or nothing once every sender is gone and the channel is
/// drained. What arrives depends on the senders, so nothing more is promised.
#[verifier::external_body]
fn recv_message(input: &Receiver<ProgressMessage>) -> Option<ProgressMessage> {
    input.recv().ok()
}

/// How one message changes the statistics: `Todo` refreshes the discovery
/// totals, a terminal message folds an outcome or an error in, and the other
/// messages leave the accumulator untouched.
pub open spec fn spec_apply_message(v: StatsView, m: ProgressMessage) -> StatsView {
    match m {
        ProgressMessage::Todo { num_files, total_size } => StatsView {
            num_files,
            total_size,
            ..v
        },
        ProgressMessage::DoneSyncing(outcome) => spec_add_outcome(v, outcome),
        ProgressMessage::SyncError { entry: _, details: _ } => StatsView {
            errors: bump(v.errors),
            ..v
        },
        ProgressMessage::StartSync(_) => v,
        ProgressMessage::Syncing { description: _, size: _, done: _ } => v,
    }
}

/// The statistics after a whole message sequence, message by message.
pub open spec fn fold_messages(v: StatsView, msgs: Seq<ProgressMessage>) -> StatsView
    decreases msgs.len(),
{
    if msgs.len() == 0 {
        v
    } else {
        spec_apply_message(fold_messages(v, msgs.drop_last()), msgs.last())
    }
}

/// True of the messages that are terminal for one entry: its outcome or its
/// error. Each entry gets exactly one of them.
pub open spec fn is_terminal(m: ProgressMessage) -> bool {
    match m {
        ProgressMessage::DoneSyncing(_) => true,
        ProgressMessage::SyncError { entry: _, details: _ } => true,
        _ => false,
    }
}

/// How many messages of the sequence are terminal for an entry.
pub open spec fn count_terminal(msgs: Seq<ProgressMessage>) -> int
    decreases msgs.len(),
{
    if msgs.len() == 0 {
        0
    } else {
        count_terminal(msgs.drop_last()) + if is_terminal(msgs.last()) {
            1int
        } else {
            0int
        }
    }
}

/// No entry is dropped and none is double-counted: over any message sequence
/// short enough for the counters not to saturate, the number of processed
/// entries plus the number of errors equals the number of terminal messages
/// received.
pub proof fn lemma_terminal_messages_counted(msgs: Seq<ProgressMessage>)
    requires
        msgs.len() < u64::MAX,
    ensures
        ({
            let v = fold_messages(StatsView::zero(), msgs);
            v.num_synced + v.errors == count_terminal(msgs)
        }),
        count_terminal(msgs) <= msgs.len(),
    decreases msgs.len(),
{
    if msgs.len() > 0 {
        lemma_terminal_messages_counted(msgs.drop_last());
    }
}

/// Folding any message sequence from zero keeps the counters consistent: the
/// processed-entries counter is the sum of the per-outcome counters.
pub proof fn lemma_fold_consistent(msgs: Seq<ProgressMessage>)
    ensures
        fold_messages(StatsView::zero(), msgs).consistent(),
    decreases msgs.len(),
{
    if msgs.len() > 0 {
        lemma_fold_consistent(msgs.drop_last());
        match msgs.last() {
            ProgressMessage::DoneSyncing(outcome) => {
                lemma_add_outcome_consistent(
                    fold_messages(StatsView::zero(), msgs.drop_last()),
                    outcome,
                );
            },
            _ => {},
        }
    }
}

/// The remaining-time estimate in whole seconds:
/// `elapsed * total_size / total_done - elapsed`, clamped into `usize`
/// instead of overflowing or going below zero. The caller guards the
/// zero-byte divisor.
pub open spec fn spec_eta(elapsed: usize, total_size: usize, total_done: usize) -> int
    recommends
        total_done > 0,
{
    elapsed * total_size / (total_done as int) - elapsed
}

/// Computes the remaining-time estimate (see [`spec_eta`]).
pub fn compute_eta(elapsed: usize, total_size: usize, total_done: usize) -> (r: usize)
    requires
        total_done > 0,
    ensures
        r == (if spec_eta(elapsed, total_size, total_done) > usize::MAX {
            usize::MAX as int
        } else if spec_eta(elapsed, total_size, total_done) < 0 {
            0int
        } else {
            spec_eta(elapsed, total_size, total_done)
        }),
{
    proof {
        assert((elapsed as int) * (total_size as int) <= (u64::MAX as int) * (u64::MAX as int))
            by (nonlinear_arith)
            requires
                0 <= elapsed <= u64::MAX,
                0 <= total_size <= u64::MAX,
        ;
    }
    let product: u128 = (elapsed as u128) * (total_size as u128);
    let quotient: u128 = product / (total_done as u128);
    let elapsed_wide: u128 = elapsed as u128;
    let remaining: u128 = if quotient > elapsed_wide {
        quotient - elapsed_wide
    } else {
        0
    };
    if remaining > usize::MAX as u128 {
        usize::MAX
    } else {
        remaining as usize
    }
}

/// The terminal consumer of the progress channel: folds the event stream
/// into [`Stats`] and forwards updates to the progress sink.
pub struct ProgressWorker {
    input: Receiver<ProgressMessage>,
    progress_info: Box<dyn ProgressInfo>,
}

impl ProgressWorker {
    /// Bundles the receiving end of the progress channel with the sink that
    /// will be notified.
    pub fn new(input: Receiver<ProgressMessage>, progress_info: Box<dyn ProgressInfo>) -> (r:
        ProgressWorker) {
        ProgressWorker { input, progress_info }
    }

    /// Consumes the event stream until every sender is gone, then stops the
    /// wall clock, notifies the sink of the end of the run, and returns the
    /// accumulated statistics: the fold of the received messages (see
    /// [`fold_messages`]), so in particular a consistent set of counters.
    pub fn start(self) -> (r: Stats)
        ensures
            r@.consistent(),
            exists|msgs: Seq<ProgressMessage>|
                r@ == fold_messages(StatsView::zero(), msgs),
    {
        let ProgressWorker { input, mut progress_info } = self;
        let mut stats = Stats::new();
        let mut file_done: usize = 0;
        let mut current_file: String = String::new();
        let mut index: usize = 0;
        let mut total_done: usize = 0;
        let now = instant_now();
        stats.start();
        let ghost mut msgs: Seq<ProgressMessage> = Seq::empty();
        // The budget exists to give the receive loop a termination measure;
        // a run would need more messages than a counter can hold to use it up.
        let mut budget: u64 = u64::MAX;
        loop
            invariant
                stats@ == fold_messages(StatsView::zero(), msgs),
                stats@.consistent(),
            decreases budget,
        {
            if budget == 0 {
                break ;
            }
            budget = budget - 1;
            let next = recv_message(&input);
            let msg = match next {
                Some(msg) => msg,
                None => { break },
            };
            proof {
                let prev = msgs;
                msgs = msgs.push(msg);
                assert(msgs.drop_last() =~= prev);
                assert(msgs.last() == msg);
            }
            match msg {
                ProgressMessage::Todo { num_files, total_size } => {
                    stats.refresh_todo(num_files, total_size);
                },
                ProgressMessage::StartSync(name) => {
                    progress_info.new_file(name.as_str());
                    current_file = name;
                    index = sat_add_us(index, 1);
                },
                ProgressMessage::DoneSyncing(outcome) => {
                    progress_info.done_syncing();
                    proof {
                        lemma_add_outcome_consistent(stats@, outcome);
                    }
                    stats.add_outcome(&outcome);
                    file_done = 0;
                },
                ProgressMessage::SyncError { entry, details } => {
                    progress_info.error(entry.as_str(), details.as_str());
                    stats.add_error();
                },
                ProgressMessage::Syncing { description: _, size, done } => {
                    file_done = sat_add_us(file_done, done);
                    total_done = sat_add_us(total_done, done);
                    if total_done > 0 {
                        let elapsed = clamp_usize(duration_secs(&elapsed_since(&now)));
                        let eta = compute_eta(elapsed, stats.get_total_size(), total_done);
                        let detailed_progress = Progress {
                            file_done,
                            file_size: size,
                            total_done,
                            total_size: stats.get_total_size(),
                            index,
                            num_files: clamp_usize(stats.get_num_files()),
                            current_file: current_file.clone(),
                            eta,
                        };
                        progress_info.progress(&detailed_progress);
                    }
                },
            }
        }
        stats.stop();
        progress_info.end(&stats);
        proof {
            assert(stats@ == fold_messages(StatsView::zero(), msgs));
        }
        stats
    }
}

} // verus!
