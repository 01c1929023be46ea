//! A decoder for frames of VideoToolbox: shared with Metal, and copied through the CPU for
//! other graphics interfaces.
use crate::context::layout::{PixelFormat, TextureFormat, TextureSpec};
use crate::decode::hw::{shares_with, AdapterKind, Backend};
use vstd::prelude::*;

verus! {

/// A plane of a pixel buffer.
#[derive(Debug, Clone, Copy, PartialEq, Eq, Structural)]
pub struct BufferPlane {
    pub width: u32,
    pub height: u32,
    pub bytes_per_row: usize,
}

/// A pixel buffer with luma and interleaved chroma.
#[derive(Debug, Clone, Copy, PartialEq, Eq, Structural)]
pub struct PixelBuffer {
    pub luma: BufferPlane,
    pub chroma: BufferPlane,
}

/// The textures that frames are copied to.
#[derive(Debug, Clone, Copy, PartialEq, Eq, Structural)]
pub struct ImportedTexture {
    /// The copies are made by Metal.
    pub shared: bool,
    pub luma: TextureSpec,
    pub chroma: TextureSpec,
}

/// The textures for a buffer.
pub open spec fn imported_texture(buffer: PixelBuffer, backend: Backend) -> ImportedTexture {
    ImportedTexture {
        shared: shares_with(AdapterKind::VideoToolbox, backend),
        luma: TextureSpec {
            width: buffer.luma.width,
            height: buffer.luma.height,
            format: TextureFormat::R8Unorm,
        },
        chroma: TextureSpec {
            width: buffer.chroma.width,
            height: buffer.chroma.height,
            format: TextureFormat::Rg8Unorm,
        },
    }
}

/// A copy by Metal: a view of the plane is made and copied.
#[derive(Debug, Clone, Copy, PartialEq, Eq, Structural)]
pub struct PlaneBlit {
    /// The view of the plane.
    pub source: TextureSpec,
    pub width: u32,
    pub height: u32,
}

/// A copy through the CPU.
#[derive(Debug, Clone, Copy, PartialEq, Eq, Structural)]
pub struct PlaneCopy {
    pub data_len: usize,
    pub bytes_per_row: usize,
    pub rows_per_image: u32,
    pub width: u32,
    pub height: u32,
}

/// The copy of a plane to the whole of a texture.
pub open spec fn plane_copy(plane: BufferPlane, texture: TextureSpec) -> PlaneCopy {
    PlaneCopy {
        data_len: (plane.bytes_per_row * texture.height) as usize,
        bytes_per_row: plane.bytes_per_row,
        rows_per_image: texture.height,
        width: texture.width,
        height: texture.height,
    }
}

impl ImportedTexture {
    /// The copies of luma and chroma by Metal. Luma is copied in the size of its texture,
    /// chroma in that of the buffer.
    pub fn import_cv_buffer(&self, buffer: &PixelBuffer) -> (blits: (PlaneBlit, PlaneBlit))
        ensures
            blits.0 == (PlaneBlit {
                source: TextureSpec {
                    width: buffer.luma.width,
                    height: buffer.luma.height,
                    format: TextureFormat::R8Unorm,
                },
                width: self.luma.width,
                height: self.luma.height,
            }),
            blits.1 == (PlaneBlit {
                source: TextureSpec {
                    width: buffer.chroma.width,
                    height: buffer.chroma.height,
                    format: TextureFormat::Rg8Unorm,
                },
                width: buffer.chroma.width,
                height: buffer.chroma.height,
            }),
    {
        let luma = TextureSpec {
            width: buffer.luma.width,
            height: buffer.luma.height,
            format: TextureFormat::R8Unorm,
        };
        let chroma = TextureSpec {
            width: buffer.chroma.width,
            height: buffer.chroma.height,
            format: TextureFormat::Rg8Unorm,
        };
        (
            PlaneBlit { source: luma, width: self.luma.width, height: self.luma.height },
            PlaneBlit { source: chroma, width: chroma.width, height: chroma.height },
        )
    }

    /// The copies of luma and chroma through the CPU.
    pub fn copy_cv_buffer(&self, buffer: &PixelBuffer) -> (copies: (PlaneCopy, PlaneCopy))
        requires
            buffer.luma.bytes_per_row * self.luma.height <= usize::MAX,
            buffer.chroma.bytes_per_row * self.chroma.height <= usize::MAX,
        ensures
            copies.0 == plane_copy(buffer.luma, self.luma),
            copies.1 == plane_copy(buffer.chroma, self.chroma),
    {
        (
            PlaneCopy {
                data_len: buffer.luma.bytes_per_row * self.luma.height as usize,
                bytes_per_row: buffer.luma.bytes_per_row,
                rows_per_image: self.luma.height,
                width: self.luma.width,
                height: self.luma.height,
            },
            PlaneCopy {
                data_len: buffer.chroma.bytes_per_row * self.chroma.height as usize,
                bytes_per_row: buffer.chroma.bytes_per_row,
                rows_per_image: self.chroma.height,
                width: self.chroma.width,
                height: self.chroma.height,
            },
        )
    }
}

/// Decodes frames of VideoToolbox.
pub struct VideoToolboxHardwareDecoder {
    /// The textures, once there was a frame.
    pub imported_texture: Option<ImportedTexture>,
}

impl VideoToolboxHardwareDecoder {
    /// A decoder without textures.
    pub fn new() -> (decoder: VideoToolboxHardwareDecoder)
        ensures
            decoder.imported_texture is None,
    {
        VideoToolboxHardwareDecoder { imported_texture: None }
    }

    /// The textures to copy a frame to, and whether they have to be made first. A frame without
    /// a pixel buffer is left out.
    pub fn import_frame(
        &mut self,
        buffer: Option<PixelBuffer>,
        format: PixelFormat,
        backend: Backend,
    ) -> (imported: Option<(ImportedTexture, bool)>)
        requires
            buffer is Some ==> format is VideoToolbox,
        ensures
            match buffer {
                None => imported is None && *final(self) == *old(self),
                Some(buffer) => match old(self).imported_texture {
                    Some(texture) => imported == Some((texture, false)) && *final(self)
                        == *old(self),
                    None => {
                        &&& imported == Some((imported_texture(buffer, backend), true))
                        &&& final(self).imported_texture == Some(imported_texture(buffer, backend))
                    },
                },
            },
    {
        match buffer {
            None => None,
            Some(buffer) => match self.imported_texture {
                Some(texture) => Some((texture, false)),
                None => {
                    let texture = ImportedTexture {
                        shared: AdapterKind::VideoToolbox.supports_backend(backend),
                        luma: TextureSpec {
                            width: buffer.luma.width,
                            height: buffer.luma.height,
                            format: TextureFormat::R8Unorm,
                        },
                        chroma: TextureSpec {
                            width: buffer.chroma.width,
                            height: buffer.chroma.height,
                            format: TextureFormat::Rg8Unorm,
                        },
                    };
                    self.imported_texture = Some(texture);
                    Some((texture, true))
                },
            },
        }
    }
}

/// While the size of the frames stays the same, both planes are copied to the whole of their
/// textures, whichever way they are copied.
pub proof fn law_buffers_fill_the_textures(buffer: PixelBuffer, backend: Backend)
    ensures
        ({
            let texture = imported_texture(buffer, backend);
            &&& texture.luma.width == buffer.luma.width
            &&& texture.luma.height == buffer.luma.height
            &&& texture.chroma.width == buffer.chroma.width
            &&& texture.chroma.height == buffer.chroma.height
            &&& plane_copy(buffer.luma, texture.luma).width == buffer.luma.width
            &&& plane_copy(buffer.chroma, texture.chroma).height == buffer.chroma.height
        }),
{
}

/// The textures are those of 8-bit luma and interleaved chroma in the sizes of the planes, and the
/// copies are Metal's exactly where the graphics interface is Metal.
pub proof fn law_textures_are_like_their_planes(buffer: PixelBuffer, backend: Backend)
    ensures
        ({
            let texture = imported_texture(buffer, backend);
            &&& texture.shared <==> backend == Backend::Metal
            &&& texture.luma.format.channels() == 1 && texture.luma.format.bits() == 8
            &&& texture.chroma.format.channels() == 2 && texture.chroma.format.bits() == 8
            &&& texture.luma.width == buffer.luma.width
            &&& texture.luma.height == buffer.luma.height
            &&& texture.chroma.width == buffer.chroma.width
            &&& texture.chroma.height == buffer.chroma.height
        }),
{
}

/// A copy takes as many rows as its texture is high, each as long as the rows of the plane, and fills
/// the texture.
pub proof fn law_copies_take_the_rows_of_their_texture(plane: BufferPlane, texture: TextureSpec)
    requires
        plane.bytes_per_row * texture.height <= usize::MAX,
    ensures
        ({
            let copy = plane_copy(plane, texture);
            &&& copy.data_len == plane.bytes_per_row * texture.height
            &&& copy.bytes_per_row == plane.bytes_per_row
            &&& copy.rows_per_image == texture.height
            &&& copy.width == texture.width
            &&& copy.height == texture.height
        }),
{
    assert(0 <= plane.bytes_per_row * texture.height) by (nonlinear_arith)
        requires
            0 <= plane.bytes_per_row,
            0 <= texture.height,
    ;
}

} // verus!
