//! Batch-job bookkeeping: the one-job-at-a-time gate, and the tally of a batch run.

use vstd::prelude::*;
use crate::options::{exit_code, summary_line};
use crate::text::dec;

verus! {

/// Whether a batch job is running and whether it has been asked to stop.
#[derive(Debug, Default, Clone, Copy, PartialEq, Eq, Structural)]
pub struct JobState {
    pub cancelled: bool,
    pub running: bool,
}

/// The state after a start attempt, and whether the start was allowed.
pub open spec fn spec_begin(s: JobState) -> (bool, JobState) {
    if s.running { (false, s) } else { (true, JobState { cancelled: false, running: true }) }
}

/// The state after a job ends.
pub open spec fn spec_end(s: JobState) -> JobState {
    JobState { cancelled: s.cancelled, running: false }
}

/// The state after a cancellation request.
pub open spec fn spec_cancel(s: JobState) -> JobState {
    JobState { cancelled: true, running: s.running }
}

impl JobState {
    /// Starts a job: refused while another one runs; otherwise clears a stale cancellation
    /// and marks the job running.
    pub fn begin(&mut self) -> (r: Result<(), String>)
        ensures
            (r is Ok, *final(self)) == spec_begin(*old(self)),
            r is Err ==> r->Err_0@ == "a job is already running"@,
    {
        if self.running {
            return Err(String::from_str("a job is already running"));
        }
        self.cancelled = false;
        self.running = true;
        Ok(())
    }

    /// Ends the running job.
    pub fn end(&mut self)
        ensures
            *final(self) == spec_end(*old(self)),
    {
        self.running = false;
    }

    /// Asks the running job to stop before its next file.
    pub fn cancel(&mut self)
        ensures
            *final(self) == spec_cancel(*old(self)),
    {
        self.cancelled = true;
    }
}

/// Only one job runs at a time: once a start succeeds, another start is refused until the
/// job ends, after which a start succeeds again with the cancellation flag cleared.
pub proof fn lemma_one_job_at_a_time(s: JobState)
    requires
        spec_begin(s).0,
    ensures
        !spec_begin(spec_begin(s).1).0,
        !spec_begin(spec_cancel(spec_begin(s).1)).0,
        spec_begin(spec_end(spec_begin(s).1)).0,
        !spec_begin(spec_end(spec_cancel(spec_begin(s).1))).1.cancelled,
{
}

/// How one file of a batch ended.
#[derive(Debug, Clone, Copy, PartialEq, Eq, Structural)]
pub enum FileOutcome {
    /// The output was written.
    Done,
    /// Probing or generating failed; the batch goes on.
    Failed,
    /// The encoder was killed by a cancellation; the batch stops.
    Killed,
}

/// What the desktop front end is told as a batch runs.
#[derive(Debug, Clone, Copy, PartialEq, Eq, Structural)]
pub enum JobEvent {
    /// File number `index` (from 1) of `total` starts.
    FileStart { index: u32, total: u32 },
    /// File number `index` of `total` was written.
    FileDone { index: u32, total: u32 },
    /// File number `index` failed; the batch goes on.
    FileFailed { index: u32 },
    /// The batch ended, with its counters.
    Finished { completed: u32, failed: u32, cancelled: u32 },
}

/// The event name a front end listens for.
pub open spec fn spec_event_name(e: JobEvent) -> Seq<char> {
    match e {
        JobEvent::FileStart { .. } => crate::events::FILE_START@,
        JobEvent::FileDone { .. } => crate::events::FILE_DONE@,
        JobEvent::FileFailed { .. } => crate::events::FILE_FAILED@,
        JobEvent::Finished { .. } => crate::events::FINISHED@,
    }
}

impl JobEvent {
    /// The name under which the event is emitted.
    pub fn name(&self) -> (n: &'static str)
        ensures
            n@ == spec_event_name(*self),
    {
        match self {
            JobEvent::FileStart { .. } => crate::events::FILE_START,
            JobEvent::FileDone { .. } => crate::events::FILE_DONE,
            JobEvent::FileFailed { .. } => crate::events::FILE_FAILED,
            JobEvent::Finished { .. } => crate::events::FINISHED,
        }
    }
}

/// Counters of a batch run over `total` files.
#[derive(Debug, Clone, Copy, PartialEq, Eq, Structural)]
pub struct BatchTally {
    pub total: u32,
    /// Files handled so far.
    pub next: u32,
    pub completed: u32,
    pub failed: u32,
    pub cancelled: u32,
    /// Whether the batch has stopped (all handled, cancelled, or killed).
    pub finished: bool,
}

impl BatchTally {
    /// The counters' invariant: every handled file is completed or failed, a stop by
    /// cancellation counts the files left, and nothing is counted twice.
    pub open spec fn wf(self) -> bool {
        &&& self.next <= self.total
        &&& self.completed + self.failed == self.next
        &&& self.completed + self.failed + self.cancelled <= self.total
        &&& !self.finished ==> self.cancelled == 0
        &&& self.next == self.total ==> self.finished
    }

    /// The tally of a batch of `total` files before the first one.
    pub fn new(total: u32) -> (t: BatchTally)
        ensures
            t.wf(),
            t == (BatchTally { total, next: 0, completed: 0, failed: 0, cancelled: 0, finished: total == 0 }),
    {
        BatchTally { total, next: 0, completed: 0, failed: 0, cancelled: 0, finished: total == 0 }
    }

    /// Before the next file: if cancellation was requested, the files not yet handled are
    /// counted as cancelled and the batch stops (nothing to emit); otherwise the file
    /// starts, announced by its start event.
    pub fn check_cancel(&mut self, cancel_requested: bool) -> (start: Option<JobEvent>)
        requires
            old(self).wf(),
            !old(self).finished,
        ensures
            final(self).wf(),
            cancel_requested ==> start is None,
            !cancel_requested ==> start == Some(JobEvent::FileStart {
                index: (old(self).next + 1) as u32,
                total: old(self).total,
            }),
            cancel_requested ==> *final(self) == (BatchTally {
                cancelled: (old(self).total - old(self).next) as u32,
                finished: true,
                ..*old(self)
            }),
            !cancel_requested ==> *final(self) == *old(self),
    {
        if cancel_requested {
            self.cancelled = self.total - self.next;
            self.finished = true;
            None
        } else {
            Some(JobEvent::FileStart { index: self.next + 1, total: self.total })
        }
    }

    /// Records how the current file ended, and gives the event that reports it: done or
    /// failed with the file's number; nothing for a file stopped by a cancellation.
    pub fn record(&mut self, outcome: FileOutcome) -> (event: Option<JobEvent>)
        requires
            old(self).wf(),
            !old(self).finished,
        ensures
            final(self).wf(),
            event == match outcome {
                FileOutcome::Done => Some(JobEvent::FileDone { index: (old(self).next + 1) as u32, total: old(self).total }),
                FileOutcome::Failed => Some(JobEvent::FileFailed { index: (old(self).next + 1) as u32 }),
                FileOutcome::Killed => None::<JobEvent>,
            },
            match outcome {
                FileOutcome::Done => *final(self) == (BatchTally {
                    next: (old(self).next + 1) as u32,
                    completed: (old(self).completed + 1) as u32,
                    finished: old(self).next + 1 == old(self).total,
                    ..*old(self)
                }),
                FileOutcome::Failed => *final(self) == (BatchTally {
                    next: (old(self).next + 1) as u32,
                    failed: (old(self).failed + 1) as u32,
                    finished: old(self).next + 1 == old(self).total,
                    ..*old(self)
                }),
                FileOutcome::Killed => *final(self) == (BatchTally {
                    cancelled: (old(self).cancelled + 1) as u32,
                    finished: true,
                    ..*old(self)
                }),
            },
    {
        match outcome {
            FileOutcome::Done => {
                self.next = self.next + 1;
                self.completed = self.completed + 1;
                self.finished = self.next == self.total;
                Some(JobEvent::FileDone { index: self.next, total: self.total })
            },
            FileOutcome::Failed => {
                self.next = self.next + 1;
                self.failed = self.failed + 1;
                self.finished = self.next == self.total;
                Some(JobEvent::FileFailed { index: self.next })
            },
            FileOutcome::Killed => {
                self.cancelled = self.cancelled + 1;
                self.finished = true;
                None
            },
        }
    }

    /// The last event of a finished batch: its completed, failed and cancelled counts.
    pub fn finish_event(&self) -> (event: JobEvent)
        requires
            self.finished,
        ensures
            event == (JobEvent::Finished { completed: self.completed, failed: self.failed, cancelled: self.cancelled }),
    {
        JobEvent::Finished { completed: self.completed, failed: self.failed, cancelled: self.cancelled }
    }
}

/// Every file of a batch is counted at most once, and a batch that ran to the end or was
/// stopped by a cancellation request accounts for every file.
pub proof fn lemma_batch_accounts_for_files(t: BatchTally)
    requires
        t.wf(),
        t.finished,
    ensures
        t.completed + t.failed + t.cancelled <= t.total,
        t.next == t.total ==> t.completed + t.failed == t.total,
{
}

/// Counters of a command-line run over `total` inputs. A file whose encoder was killed by a
/// cancellation counts neither as done nor as failed; the summary then reports every
/// file not done and not failed as cancelled.
#[derive(Debug, Clone, Copy, PartialEq, Eq, Structural)]
pub struct RunTally {
    pub total: u64,
    /// Files handled so far.
    pub handled: u64,
    pub done: u64,
    pub failed: u64,
}

impl RunTally {
    /// The counters' invariant: nothing is counted twice.
    pub open spec fn wf(self) -> bool {
        &&& self.handled <= self.total
        &&& self.done + self.failed <= self.handled
    }

    /// The tally of a run over `total` inputs before the first one.
    pub fn new(total: u64) -> (t: RunTally)
        ensures
            t.wf(),
            t == (RunTally { total, handled: 0, done: 0, failed: 0 }),
    {
        RunTally { total, handled: 0, done: 0, failed: 0 }
    }

    /// Records how the current file ended.
    pub fn record(&mut self, outcome: FileOutcome)
        requires
            old(self).wf(),
            old(self).handled < old(self).total,
        ensures
            final(self).wf(),
            final(self).total == old(self).total,
            final(self).handled == old(self).handled + 1,
            final(self).done == old(self).done + (if outcome == FileOutcome::Done { 1int } else { 0int }),
            final(self).failed == old(self).failed + (if outcome == FileOutcome::Failed { 1int } else { 0int }),
    {
        self.handled = self.handled + 1;
        match outcome {
            FileOutcome::Done => {
                self.done = self.done + 1;
            },
            FileOutcome::Failed => {
                self.failed = self.failed + 1;
            },
            FileOutcome::Killed => {},
        }
    }

    /// The run summary: `<done> done · <failed> failed · <n> cancelled`, `n` counting the
    /// files neither done nor failed when the run was cancelled.
    pub fn summary(&self, cancelled: bool) -> (s: String)
        requires
            self.wf(),
        ensures
            s@ == dec(self.done as nat) + " done \u{b7} "@ + dec(self.failed as nat) + " failed \u{b7} "@
                + dec((if cancelled { self.total - self.done - self.failed } else { 0 }) as nat) + " cancelled"@,
    {
        summary_line(self.done, self.failed, self.total, cancelled)
    }

    /// The exit status: 130 after a cancellation, 1 when a file failed, 0 otherwise.
    pub fn exit_code(&self, cancelled: bool) -> (code: i32)
        ensures
            code == if cancelled { 130i32 } else if self.failed > 0 { 1i32 } else { 0i32 },
    {
        exit_code(cancelled, self.failed)
    }
}

} // verus!
