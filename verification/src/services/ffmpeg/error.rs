//! Errors of the orchestration core.
use vstd::prelude::*;
use crate::services::ffmpeg::task::{FFmpegTask, ProcessExit};

verus! {

/// What can go wrong while tasks are started, polled and aborted.
#[derive(Debug)]
pub enum FFmpegError {
    /// The executable could not be started. Holds the operating system's
    /// error and the rendered command line.
    SpawnFFmpegFailed(std::io::Error, String),
    /// The process ran and exited without success.
    FFmpegRunFailed(ProcessExit),
    /// The process could not be told to end. The task has left the registry
    /// all the same, and is handed back here.
    FFmpegKillFailed(std::io::Error, FFmpegTask),
    /// The non-blocking exit check itself failed.
    TryWaitFailed(std::io::Error),
    /// Output of the process was not UTF-8.
    ConvertUtf8Failed(std::string::FromUtf8Error),
}

/// Result of an operation of the orchestration core.
pub type FFmpegResult<T> = Result<T, FFmpegError>;

impl From<std::string::FromUtf8Error> for FFmpegError {
    fn from(error: std::string::FromUtf8Error) -> (converted: Self) {
        FFmpegError::ConvertUtf8Failed(error)
    }
}

impl vstd::std_specs::convert::FromSpecImpl<std::string::FromUtf8Error> for FFmpegError {
    open spec fn obeys_from_spec() -> bool {
        true
    }

    open spec fn from_spec(error: std::string::FromUtf8Error) -> Self {
        FFmpegError::ConvertUtf8Failed(error)
    }
}

} // verus!
