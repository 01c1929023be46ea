//! What can go wrong while a stream is opened, decoded or shown.
use vstd::prelude::*;
use vstd::std_specs::convert::FromSpecImpl;
use vstd::string::StringExecFns;

verus! {

/// The errors of the player.
#[derive(Debug, Clone, PartialEq, Eq)]
pub enum Error {
    /// FFmpeg refused a call; the value is its error code.
    FFmpeg(i32),
    /// The input has no stream of the wanted kind.
    InvalidStream,
    /// There is no decoder for the codec of this name.
    MissingCodec(&'static str),
    /// The hardware device could not be opened.
    HardwareContext,
    /// Frames of this pixel format cannot be shown.
    UnsupportedPixelFormat,
    /// The graphics backend cannot share memory with the decoder.
    UnsupportedBackend,
    /// A frame came without data.
    InvalidFrame,
    /// A texture could not be shared between two graphics interfaces.
    TextureShare,
    /// Anything else.
    Unknown,
}

impl Error {
    /// The text that `message` gives, where FFmpeg describes its own error as `ffmpeg`.
    pub open spec fn text(&self, ffmpeg: Seq<char>) -> Seq<char> {
        match *self {
            Error::FFmpeg(_) => "FFmpeg error: "@ + ffmpeg,
            Error::InvalidStream => "failed to select stream"@,
            Error::MissingCodec(name) => "failed to find codec "@ + name@ + " for stream"@,
            Error::HardwareContext => "hardware context error"@,
            Error::UnsupportedPixelFormat => "unsupported pixel format"@,
            Error::UnsupportedBackend => "unsupported graphics backend"@,
            Error::InvalidFrame => "invalid frame"@,
            Error::TextureShare => "failed to share texture"@,
            Error::Unknown => "unknown error"@,
        }
    }

    /// The error in words. FFmpeg knows best what its own codes mean, so its description of
    /// the code is handed in; every other error ignores it.
    pub fn message(&self, ffmpeg: &str) -> (text: String)
        ensures
            text@ == self.text(ffmpeg@),
    {
        match self {
            Error::FFmpeg(_) => {
                let mut text = "FFmpeg error: ".to_owned();
                text.append(ffmpeg);
                text
            },
            Error::InvalidStream => "failed to select stream".to_owned(),
            Error::MissingCodec(name) => {
                let mut text = "failed to find codec ".to_owned();
                text.append(name);
                text.append(" for stream");
                text
            },
            Error::HardwareContext => "hardware context error".to_owned(),
            Error::UnsupportedPixelFormat => "unsupported pixel format".to_owned(),
            Error::UnsupportedBackend => "unsupported graphics backend".to_owned(),
            Error::InvalidFrame => "invalid frame".to_owned(),
            Error::TextureShare => "failed to share texture".to_owned(),
            Error::Unknown => "unknown error".to_owned(),
        }
    }
}

impl FromSpecImpl<i32> for Error {
    open spec fn obeys_from_spec() -> bool {
        true
    }

    open spec fn from_spec(code: i32) -> Error {
        Error::FFmpeg(code)
    }
}

/// An FFmpeg error code is an error of the player.
impl From<i32> for Error {
    fn from(code: i32) -> (error: Error) {
        Error::FFmpeg(code)
    }
}

/// An error of FFmpeg is told in FFmpeg's own words, a missing codec by its name, and every other
/// error in words of its own that do not depend on FFmpeg's.
pub proof fn law_errors_tell_what_happened(error: Error, ffmpeg: Seq<char>, other: Seq<char>)
    ensures
        match error {
            Error::FFmpeg(_) => error.text(ffmpeg) == "FFmpeg error: "@ + ffmpeg,
            Error::MissingCodec(name) => error.text(ffmpeg) == "failed to find codec "@ + name@
                + " for stream"@,
            Error::InvalidStream => error.text(ffmpeg) == "failed to select stream"@,
            Error::HardwareContext => error.text(ffmpeg) == "hardware context error"@,
            Error::Unknown => error.text(ffmpeg) == "unknown error"@,
            _ => true,
        },
        !(error is FFmpeg) ==> error.text(ffmpeg) == error.text(other),
{
}

} // verus!
