//! Tasks: one started transcoding process each, with its lifecycle status.
use vstd::prelude::*;
use tokio::process::Child;
use crate::services::ffmpeg::format::Format;

verus! {

/// Lifecycle status of a task.
#[derive(Clone, Copy, Debug, PartialEq, Eq, Structural)]
pub enum FFmpegStatus {
    /// A status refresh has begun and has not come to a result. A task that
    /// keeps this status had its last poll fail.
    Determining,
    /// Registered, but not handed to a process yet.
    Pending,
    /// The process was started and has not been seen to exit.
    Running,
    /// The process exited with success.
    Completed,
    /// The process exited with failure or was aborted. Holds the exit code
    /// where one could be obtained.
    Interrupted(Option<i32>),
}

impl FFmpegStatus {
    /// A status after which the process will not change state on its own.
    pub open spec fn is_terminal(self) -> bool {
        self is Completed || self is Interrupted
    }
}

/// How a process ended, as the operating system reports it.
#[derive(Clone, Copy, Debug, PartialEq, Eq, Structural)]
pub struct ProcessExit {
    /// Whether the process ended with success.
    pub success: bool,
    /// The exit code, absent where the process was ended by a signal.
    pub code: Option<i32>,
}

impl ProcessExit {
    /// Success is a zero exit code, and nothing else.
    pub open spec fn consistent(self) -> bool {
        self.success <==> self.code == Some(0i32)
    }
}

/// One tracked invocation of the transcoding executable.
#[derive(Debug)]
pub struct FFmpegTask {
    /// Current lifecycle status.
    pub status: FFmpegStatus,
    /// Handle of the process, owned by the task.
    pub child: Child,
    /// Output file declared when the process was started.
    pub target: String,
}

/// Parameters of one transcoding request.
#[derive(Clone, Copy, Debug)]
pub struct FFmpegTaskParameters<'a> {
    /// Requested output format.
    pub format: Format,
    /// Input file.
    pub src: &'a str,
    /// Output file.
    pub target: &'a str,
}

} // verus!
