//! Orchestration core of an audio transcoding server.
//!
//! A transcoding request names an output format, a source file and a target
//! file. The executor turns it into the invocation of the transcoding
//! executable, and the manager keeps every started process in a registry
//! under a caller-chosen identifier, where it can be polled, listed and
//! aborted.
pub mod error;
pub mod services;
