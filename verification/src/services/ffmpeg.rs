//! Transcoding with the external executable: the executor that prepares an
//! invocation, the manager that tracks the started processes, and the types
//! and errors of both.
pub mod error;
pub mod executor;
pub mod format;
pub mod manager;
pub mod process;
pub mod task;
