//! Errors of the server as a whole.
use vstd::prelude::*;
use crate::services::client::ClientServiceError;
use crate::services::ffmpeg::error::FFmpegError;

verus! {

/// Error of an operating-system call, as std reports it.
#[verifier::external_type_specification]
#[verifier::external_body]
pub struct ExIoError(std::io::Error);

/// Error of a conversion from bytes that are not UTF-8, as std reports it.
#[verifier::external_type_specification]
#[verifier::external_body]
pub struct ExFromUtf8Error(std::string::FromUtf8Error);

/// What can go wrong in the server.
#[derive(Debug)]
pub enum ServerError {
    /// An error of the client service.
    ClientServiceError(ClientServiceError),
    /// An error of the transcoding service.
    FFmpegServiceError(FFmpegError),
}

/// Result of an operation of the server.
pub type ServerResult<T> = Result<T, ServerError>;

} // verus!
