//! Executing a download plan: skip detection, bounded concurrency, and
//! per-task outcome accounting.
//!
//! The library decides; the driver performs the network and disk work.
//! Per task the decision rests on the byte length of whatever already
//! sits at the task's target path: an equal length means the task is
//! already synced and is skipped without any network request, a
//! different length means the file is re-downloaded, and an absent (or
//! unreadable) file means a fresh download.

use vstd::prelude::*;

use crate::plan::DownloadEntry;
use crate::plan::dir_view;

verus! {

/// What to do with one task.
#[derive(Debug, Clone, Copy, PartialEq, Eq, Structural)]
pub enum TaskAction {
    /// A local file of exactly the recorded remote size exists: done.
    Skip,
    /// A local file exists but its size differs: download again,
    /// overwriting it.
    Redownload,
    /// No usable local file: download.
    Download,
}

/// Skip detection. `existing_len` is the byte length of the file at the
/// task's target path, or `None` when nothing readable is there.
pub fn decide_action(existing_len: Option<u64>, expected_size: u64) -> (r: TaskAction)
    ensures
        r == TaskAction::Skip <==> existing_len == Some(expected_size),
        r == TaskAction::Redownload <==> (existing_len matches Some(l) && l != expected_size),
        r == TaskAction::Download <==> existing_len is None,
{
    match existing_len {
        Some(len) => {
            if len == expected_size {
                TaskAction::Skip
            } else {
                TaskAction::Redownload
            }
        },
        None => TaskAction::Download,
    }
}

/// A downloaded file is complete exactly when the bytes written match
/// the recorded remote size; anything else must be reported as a failed
/// task (and must not be left in place at the expected size, or skip
/// detection would later mistake it for a synced file).
pub fn download_complete(written: u64, expected_size: u64) -> (r: bool)
    ensures
        r == (written == expected_size),
{
    written == expected_size
}

/// Final local path of a task: the directory segments accumulated by
/// the flattener with the file's own name appended as last segment.
pub fn target_segments(entry: &DownloadEntry) -> (r: Vec<String>)
    ensures
        dir_view(r@) == dir_view(entry.path@).push(entry.file.name@),
{
    let mut segs = entry.path.clone();
    segs.push(entry.file.name.clone());
    proof {
        assert(dir_view(segs@) =~= dir_view(entry.path@).push(entry.file.name@));
    }
    segs
}

/// Bounded-width scheduler for the download phase: it hands a task out
/// only while fewer than `limit` are in flight, so a driver that starts
/// a download only when `try_start` answers one never has more than
/// `limit` downloads open at once.
#[derive(Debug)]
pub struct Scheduler {
    pub pending: Vec<DownloadEntry>,
    pub in_flight: usize,
    pub limit: usize,
}

impl Scheduler {
    /// At most `limit` tasks are in flight, and the limit is positive.
    pub open spec fn wf(self) -> bool {
        self.in_flight <= self.limit && 1 <= self.limit
    }

    pub fn new(tasks: Vec<DownloadEntry>, limit: usize) -> (r: Self)
        requires
            1 <= limit,
        ensures
            r.wf(),
            r.pending == tasks,
            r.in_flight == 0,
            r.limit == limit,
    {
        Scheduler { pending: tasks, in_flight: 0, limit }
    }

    /// The next task to start, if work remains and the concurrency cap
    /// allows another; otherwise nothing, with the state unchanged.
    pub fn try_start(&mut self) -> (r: Option<DownloadEntry>)
        requires
            old(self).wf(),
        ensures
            final(self).wf(),
            final(self).limit == old(self).limit,
            if old(self).in_flight < old(self).limit && old(self).pending@.len() > 0 {
                &&& (r matches Some(t) && t == old(self).pending@.last())
                &&& final(self).pending@ == old(self).pending@.drop_last()
                &&& final(self).in_flight == old(self).in_flight + 1
            } else {
                &&& r is None
                &&& final(self).pending@ == old(self).pending@
                &&& final(self).in_flight == old(self).in_flight
            },
    {
        if self.in_flight < self.limit {
            match self.pending.pop() {
                Some(t) => {
                    self.in_flight = self.in_flight + 1;
                    Some(t)
                },
                None => None,
            }
        } else {
            None
        }
    }

    /// One in-flight download ended (well or badly).
    pub fn finish_one(&mut self)
        requires
            old(self).wf(),
            old(self).in_flight > 0,
        ensures
            final(self).wf(),
            final(self).limit == old(self).limit,
            final(self).pending@ == old(self).pending@,
            final(self).in_flight == old(self).in_flight - 1,
    {
        self.in_flight = self.in_flight - 1;
    }
}

/// The concurrency bound itself: in every well-formed scheduler state —
/// and every method above keeps states well-formed — the number of
/// in-flight downloads is at most the limit.
pub proof fn lemma_concurrency_bounded(s: Scheduler)
    requires
        s.wf(),
    ensures
        s.in_flight <= s.limit,
{
}

/// Outcome counters for one run. Failures are isolated per task: every
/// task is attempted and counted, and the run as a whole fails only if
/// at least one task failed.
#[derive(Debug)]
pub struct RunReport {
    pub skipped: u64,
    pub downloaded: u64,
    pub failed: u64,
}

impl RunReport {
    pub fn new() -> (r: Self)
        ensures
            r.skipped == 0,
            r.downloaded == 0,
            r.failed == 0,
    {
        RunReport { skipped: 0, downloaded: 0, failed: 0 }
    }

    pub fn record_skip(&mut self)
        requires
            old(self).skipped < u64::MAX,
        ensures
            final(self).skipped == old(self).skipped + 1,
            final(self).downloaded == old(self).downloaded,
            final(self).failed == old(self).failed,
    {
        self.skipped = self.skipped + 1;
    }

    pub fn record_download(&mut self)
        requires
            old(self).downloaded < u64::MAX,
        ensures
            final(self).downloaded == old(self).downloaded + 1,
            final(self).skipped == old(self).skipped,
            final(self).failed == old(self).failed,
    {
        self.downloaded = self.downloaded + 1;
    }

    pub fn record_failure(&mut self)
        requires
            old(self).failed < u64::MAX,
        ensures
            final(self).failed == old(self).failed + 1,
            final(self).skipped == old(self).skipped,
            final(self).downloaded == old(self).downloaded,
    {
        self.failed = self.failed + 1;
    }

    /// The run succeeded — the process may exit cleanly — iff no task failed.
    pub fn all_ok(&self) -> (r: bool)
        ensures
            r == (self.failed == 0),
    {
        self.failed == 0
    }
}

} // verus!
