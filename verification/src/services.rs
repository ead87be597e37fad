//! The services of the transcoding server.
pub mod client;
pub mod ffmpeg;
