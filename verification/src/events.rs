//! Names of the progress events the desktop app emits to its front end.

use vstd::prelude::*;

verus! {

/// A file of the batch started.
pub const FILE_START: &'static str = "job:file-start";
/// A step of the current file finished.
pub const STEP: &'static str = "job:step";
/// The current file's output was written.
pub const FILE_DONE: &'static str = "job:file-done";
/// The current file failed.
pub const FILE_FAILED: &'static str = "job:file-failed";
/// The batch ended.
pub const FINISHED: &'static str = "job:finished";

} // verus!
