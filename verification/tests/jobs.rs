use mosaic::jobs::{BatchTally, FileOutcome, JobEvent, JobState, RunTally};

#[test]
fn begin_returns_err_when_already_running() {
    let mut state = JobState::default();
    state.begin().unwrap();
    assert!(state.begin().is_err());
}

#[test]
fn begin_again_after_end_clears_cancel() {
    let mut state = JobState::default();
    state.begin().unwrap();
    state.cancel();
    assert!(state.cancelled);
    assert_eq!(state.begin().unwrap_err(), "a job is already running");
    state.end();
    state.begin().unwrap();
    assert!(!state.cancelled);
    assert!(state.running);
}

#[test]
fn tally_counts_every_file_once() {
    let mut t = BatchTally::new(3);
    assert!(t.check_cancel(false).is_some());
    t.record(FileOutcome::Done);
    assert!(t.check_cancel(false).is_some());
    t.record(FileOutcome::Failed);
    assert!(t.check_cancel(true).is_none());
    assert_eq!((t.completed, t.failed, t.cancelled, t.next), (1, 1, 1, 2));
    assert!(t.finished);
}

#[test]
fn tally_finishes_after_last_file() {
    let mut t = BatchTally::new(1);
    assert!(!t.finished);
    assert!(t.check_cancel(false).is_some());
    t.record(FileOutcome::Done);
    assert!(t.finished);
    assert_eq!((t.completed, t.failed, t.cancelled), (1, 0, 0));
    assert!(BatchTally::new(0).finished);
}

#[test]
fn run_tally_does_not_count_killed_files() {
    let mut t = RunTally::new(4);
    t.record(FileOutcome::Done);
    t.record(FileOutcome::Failed);
    t.record(FileOutcome::Killed);
    assert_eq!((t.handled, t.done, t.failed), (3, 1, 1));
    assert_eq!(t.summary(true), "1 done · 1 failed · 2 cancelled");
    assert_eq!(t.summary(false), "1 done · 1 failed · 0 cancelled");
    assert_eq!(t.exit_code(true), 130);
    assert_eq!(t.exit_code(false), 1);
    assert_eq!(RunTally::new(0).exit_code(false), 0);
}

#[test]
fn batch_emits_start_outcome_and_finish_events() {
    let mut t = BatchTally::new(3);
    assert_eq!(t.check_cancel(false), Some(JobEvent::FileStart { index: 1, total: 3 }));
    assert_eq!(t.record(FileOutcome::Done), Some(JobEvent::FileDone { index: 1, total: 3 }));
    assert_eq!(t.check_cancel(false), Some(JobEvent::FileStart { index: 2, total: 3 }));
    assert_eq!(t.record(FileOutcome::Failed), Some(JobEvent::FileFailed { index: 2 }));
    assert_eq!(t.check_cancel(false), Some(JobEvent::FileStart { index: 3, total: 3 }));
    assert_eq!(t.record(FileOutcome::Done), Some(JobEvent::FileDone { index: 3, total: 3 }));
    assert!(t.finished);
    assert_eq!(t.finish_event(), JobEvent::Finished { completed: 2, failed: 1, cancelled: 0 });
}

#[test]
fn killed_file_emits_nothing_and_counts_as_cancelled() {
    let mut t = BatchTally::new(4);
    assert!(t.check_cancel(false).is_some());
    assert_eq!(t.record(FileOutcome::Killed), None);
    assert!(t.finished);
    assert_eq!(t.finish_event(), JobEvent::Finished { completed: 0, failed: 0, cancelled: 1 });
}

#[test]
fn cancel_before_file_counts_the_rest() {
    let mut t = BatchTally::new(5);
    assert!(t.check_cancel(false).is_some());
    t.record(FileOutcome::Done);
    assert_eq!(t.check_cancel(true), None);
    assert_eq!(t.finish_event(), JobEvent::Finished { completed: 1, failed: 0, cancelled: 4 });
}

#[test]
fn event_names() {
    assert_eq!(JobEvent::FileStart { index: 1, total: 1 }.name(), "job:file-start");
    assert_eq!(JobEvent::FileDone { index: 1, total: 1 }.name(), "job:file-done");
    assert_eq!(JobEvent::FileFailed { index: 1 }.name(), "job:file-failed");
    assert_eq!(JobEvent::Finished { completed: 0, failed: 0, cancelled: 0 }.name(), "job:finished");
}
