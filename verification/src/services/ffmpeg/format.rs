//! Output formats and the codec policy attached to them.
use vstd::prelude::*;

verus! {

/// Output format of a transcoding request.
#[derive(Clone, Copy, Debug, PartialEq, Eq, Structural)]
pub enum Format {
    /// MP3 at the given bitrate, in kilobits per second.
    Mp3(usize),
    /// AAC at the given bitrate, in kilobits per second.
    Aac(usize),
    /// Lossless FLAC, which takes no bitrate.
    Flac,
}

impl Format {
    /// The bitrate that the format carries, if it carries one.
    pub open spec fn bitrate(self) -> Option<usize> {
        match self {
            Format::Mp3(bitrate) => Some(bitrate),
            Format::Aac(bitrate) => Some(bitrate),
            Format::Flac => None,
        }
    }

    /// The name of the audio codec that encodes the format.
    pub open spec fn codec(self) -> Seq<char> {
        match self {
            Format::Mp3(_) => "libmp3lame"@,
            Format::Aac(_) => "aac"@,
            Format::Flac => "flac"@,
        }
    }

    /// The short name of the format, as used in file extensions.
    pub open spec fn name(self) -> Seq<char> {
        match self {
            Format::Mp3(_) => "mp3"@,
            Format::Aac(_) => "aac"@,
            Format::Flac => "flac"@,
        }
    }

    /// Returns the bitrate of a lossy format, and `None` for FLAC.
    pub fn get_bitrate(&self) -> (bitrate: Option<usize>)
        ensures
            bitrate == self.bitrate(),
    {
        match *self {
            Format::Mp3(bitrate) | Format::Aac(bitrate) => Some(bitrate),
            _ => None,
        }
    }

    /// Returns the codec name to hand to the transcoding executable.
    pub fn get_codec(&self) -> (codec: &'static str)
        ensures
            codec@ == self.codec(),
    {
        match *self {
            Format::Mp3(_) => "libmp3lame",
            Format::Aac(_) => "aac",
            Format::Flac => "flac",
        }
    }

    /// Returns the short name of the format.
    pub fn to_string(&self) -> (name: String)
        ensures
            name@ == self.name(),
    {
        let name = match *self {
            Format::Mp3(_) => "mp3",
            Format::Aac(_) => "aac",
            Format::Flac => "flac",
        };
        name.to_owned()
    }
}

} // verus!
