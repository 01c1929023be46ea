//! Which adapter decodes which frame.
use crate::context::layout::{FrameDescriptor, PixelFormat};
use crate::decode::hw::{adapter_for, AdapterKind, Backend, Platform};
use crate::error::Error;
use vstd::prelude::*;

verus! {

/// What to do with a frame.
#[derive(Debug, Clone, Copy, PartialEq, Eq, Structural)]
pub struct AdapterStep {
    /// The adapter that takes the frame.
    pub kind: AdapterKind,
    /// The adapter has to be made first.
    pub make: bool,
}

/// Chooses an adapter for each frame, and keeps it while the format stays the same.
pub struct FrameDecoder {
    /// The adapter that is there.
    pub adapter: Option<AdapterKind>,
    /// The format of the last frame.
    pub last_pixel_format: PixelFormat,
}

impl FrameDecoder {
    /// The decoder once it saw a frame of this format: an adapter for another format is gone.
    pub open spec fn seen(&self, format: PixelFormat) -> FrameDecoder {
        if format == self.last_pixel_format {
            *self
        } else {
            FrameDecoder { adapter: None, last_pixel_format: format }
        }
    }

    /// A decoder that has seen no frame.
    pub fn new() -> (decoder: FrameDecoder)
        ensures
            decoder == (FrameDecoder { adapter: None, last_pixel_format: PixelFormat::Absent }),
    {
        FrameDecoder { adapter: None, last_pixel_format: PixelFormat::Absent }
    }

    /// Which adapter takes a frame of this format.
    pub fn begin_frame(&mut self, platform: Platform, format: PixelFormat) -> (result: Result<
        AdapterStep,
        Error,
    >)
        ensures
            *final(self) == old(self).seen(format),
            result == (match old(self).seen(format).adapter {
                Some(kind) => Ok::<AdapterStep, Error>(AdapterStep { kind, make: false }),
                None => match adapter_for(platform, format) {
                    Some(kind) => Ok(AdapterStep { kind, make: true }),
                    None => Err(Error::UnsupportedPixelFormat),
                },
            }),
    {
        if format != self.last_pixel_format {
            self.last_pixel_format = format;
            self.adapter = None;
        }
        if let Some(kind) = self.adapter {
            return Ok(AdapterStep { kind, make: false });
        }
        match AdapterKind::for_format(platform, format) {
            Ok(kind) => Ok(AdapterStep { kind, make: true }),
            Err(error) => Err(error),
        }
    }

    /// Takes note that the adapter was made.
    pub fn adapter_made(&mut self, kind: AdapterKind)
        ensures
            *final(self) == (FrameDecoder { adapter: Some(kind), ..*old(self) }),
    {
        self.adapter = Some(kind);
    }

    /// Takes note of what came of importing the frame. Returns whether the frame is to be
    /// copied to the RGB texture. Where the adapter cannot share frames with the graphics
    /// interface, later frames are copied through the CPU instead.
    pub fn frame_imported(&mut self, imported: Result<(), Error>) -> (result: Result<bool, Error>)
        ensures
            match imported {
                Ok(_) => result == Ok::<bool, Error>(true) && *final(self) == *old(self),
                Err(Error::UnsupportedBackend) => {
                    &&& result == Ok::<bool, Error>(false)
                    &&& *final(self) == (FrameDecoder {
                        adapter: Some(AdapterKind::Software),
                        ..*old(self)
                    })
                },
                Err(error) => result == Err::<bool, Error>(error) && *final(self) == *old(self),
            },
    {
        match imported {
            Ok(_) => Ok(true),
            Err(Error::UnsupportedBackend) => {
                self.adapter = Some(AdapterKind::Software);
                Ok(false)
            },
            Err(error) => Err(error),
        }
    }

    /// The layout to draw to the RGB texture: nothing is drawn before an adapter has bound
    /// textures and knows their layout.
    pub fn copy_to_rgb(&self, bound: bool, identity: Option<FrameDescriptor<()>>) -> (drawn: Option<
        FrameDescriptor<()>,
    >)
        ensures
            drawn == (if self.adapter is Some && bound {
                identity
            } else {
                None
            }),
    {
        if self.adapter.is_some() && bound {
            identity
        } else {
            None
        }
    }

    /// The name of the adapter that is there.
    pub fn name(&self) -> (name: Option<&'static str>)
        ensures
            match self.adapter {
                Some(kind) => name matches Some(text) && text@ == crate::decode::hw::adapter_name(
                    kind,
                ),
                None => name is None,
            },
    {
        match &self.adapter {
            Some(kind) => Some(kind.name()),
            None => None,
        }
    }
}

/// A decoder that gave up on sharing frames copies the following ones through the CPU, for as
/// long as their format stays the same.
pub proof fn law_copies_replace_sharing(
    decoder: FrameDecoder,
    format: PixelFormat,
    backend: Backend,
)
    requires
        decoder.adapter == Some(AdapterKind::Software),
        format == decoder.last_pixel_format,
    ensures
        decoder.seen(format).adapter == Some(AdapterKind::Software),
        !crate::decode::hw::shares_with(AdapterKind::Software, backend),
{
}

/// A frame of another format is not given to the adapter of the last one.
pub proof fn law_formats_do_not_share_an_adapter(decoder: FrameDecoder, format: PixelFormat)
    requires
        format != decoder.last_pixel_format,
    ensures
        decoder.seen(format).adapter is None,
        decoder.seen(format).last_pixel_format == format,
{
}

/// While the format stays the same, everything stays; with another format the adapter goes and the
/// format is remembered.
pub proof fn law_adapters_last_as_long_as_their_format(decoder: FrameDecoder, format: PixelFormat)
    ensures
        format == decoder.last_pixel_format ==> decoder.seen(format) == decoder,
        format != decoder.last_pixel_format ==> decoder.seen(format).adapter is None,
        decoder.seen(format).last_pixel_format == format,
        decoder.seen(format).seen(format) == decoder.seen(format),
{
}

} // verus!
