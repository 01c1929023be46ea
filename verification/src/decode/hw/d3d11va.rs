//! Frames of D3D11VA, shared with Vulkan and DX12.
use crate::context::layout::{
    texture_format_of, Depth, FrameDescriptor, PixelFormat, PlaneLayout, TextureFormat,
};
use crate::context::pipeline_cache::is_drawable;
use crate::decode::hw::{shares_with, AdapterKind, Backend};
use crate::error::Error;
use vstd::prelude::*;

verus! {

/// The DXGI format of NV12 textures.
pub const DXGI_FORMAT_NV12: i32 = 103;

/// The DXGI format of P010 textures.
pub const DXGI_FORMAT_P010: i32 = 104;

/// The textures may be sampled.
pub const BIND_SHADER_RESOURCE: u32 = 0x8;

/// The texture is shared under a keyed mutex.
pub const MISC_SHARED_KEYEDMUTEX: u32 = 0x100;

/// The texture is shared by an NT handle.
pub const MISC_SHARED_NTHANDLE: u32 = 0x800;

/// The texture formats with planes.
#[derive(Debug, Clone, Copy, PartialEq, Eq, Structural)]
pub enum YuvFormat {
    NV12,
    P010,
}

/// The texture format for a DXGI format.
pub open spec fn dxgi_yuv_format(format: i32) -> Option<YuvFormat> {
    if format == DXGI_FORMAT_NV12 {
        Some(YuvFormat::NV12)
    } else if format == DXGI_FORMAT_P010 {
        Some(YuvFormat::P010)
    } else {
        None
    }
}

/// The planes of a DXGI format.
pub open spec fn dxgi_layout(format: i32) -> Option<FrameDescriptor<TextureFormat>> {
    if format == DXGI_FORMAT_NV12 {
        Some(
            FrameDescriptor {
                planes: PlaneLayout::PackedYUV420(
                    [TextureFormat::R8Unorm, TextureFormat::Rg8Unorm],
                ),
                depth: Depth::D8,
            },
        )
    } else if format == DXGI_FORMAT_P010 {
        Some(
            FrameDescriptor {
                planes: PlaneLayout::PackedYUV420(
                    [TextureFormat::R16Unorm, TextureFormat::Rg16Unorm],
                ),
                depth: Depth::D16,
            },
        )
    } else {
        None
    }
}

/// The texture format for a DXGI format.
pub fn get_dxgi_yuv_format(format: i32) -> (yuv: Option<YuvFormat>)
    ensures
        yuv == dxgi_yuv_format(format),
{
    if format == DXGI_FORMAT_NV12 {
        Some(YuvFormat::NV12)
    } else if format == DXGI_FORMAT_P010 {
        Some(YuvFormat::P010)
    } else {
        None
    }
}

/// The planes of a DXGI format.
pub fn get_dxgi_layout(format: i32) -> (layout: Option<FrameDescriptor<TextureFormat>>)
    ensures
        layout == dxgi_layout(format),
{
    if format == DXGI_FORMAT_NV12 {
        let planes = [TextureFormat::R8Unorm, TextureFormat::Rg8Unorm];
        assert(planes =~= [TextureFormat::R8Unorm, TextureFormat::Rg8Unorm]);
        Some(FrameDescriptor { planes: PlaneLayout::PackedYUV420(planes), depth: Depth::D8 })
    } else if format == DXGI_FORMAT_P010 {
        let planes = [TextureFormat::R16Unorm, TextureFormat::Rg16Unorm];
        assert(planes =~= [TextureFormat::R16Unorm, TextureFormat::Rg16Unorm]);
        Some(FrameDescriptor { planes: PlaneLayout::PackedYUV420(planes), depth: Depth::D16 })
    } else {
        None
    }
}

/// A texture that D3D11 is to make.
#[derive(Debug, Clone, Copy, PartialEq, Eq, Structural)]
pub struct SharedTexture {
    pub width: u32,
    pub height: u32,
    pub mip_levels: u32,
    pub array_size: u32,
    pub format: i32,
    pub sample_count: u32,
    pub sample_quality: u32,
    pub bind_flags: u32,
    pub cpu_access_flags: u32,
    pub misc_flags: u32,
}

/// The texture that frames of this size and format are copied to: a single one that another
/// interface can open.
pub open spec fn shared_texture(width: u32, height: u32, format: i32) -> SharedTexture {
    SharedTexture {
        width,
        height,
        mip_levels: 1,
        array_size: 1,
        format,
        sample_count: 1,
        sample_quality: 0,
        bind_flags: BIND_SHADER_RESOURCE,
        cpu_access_flags: 0,
        misc_flags: (MISC_SHARED_NTHANDLE + MISC_SHARED_KEYEDMUTEX) as u32,
    }
}

/// The texture that frames of this size and format are copied to.
pub fn create_shared_texture(width: u32, height: u32, format: i32) -> (texture: SharedTexture)
    ensures
        texture == shared_texture(width, height, format),
{
    SharedTexture {
        width,
        height,
        mip_levels: 1,
        array_size: 1,
        format,
        sample_count: 1,
        sample_quality: 0,
        bind_flags: BIND_SHADER_RESOURCE,
        cpu_access_flags: 0,
        misc_flags: MISC_SHARED_NTHANDLE + MISC_SHARED_KEYEDMUTEX,
    }
}

/// A texture to make, open in the other interface and bind.
pub struct ImportPlan {
    pub texture: SharedTexture,
    pub format: YuvFormat,
    pub layout: FrameDescriptor<TextureFormat>,
}

/// Shares frames of D3D11VA.
pub struct D3D11VAFrameAdapter {
    /// The layout of the texture, once there is one.
    pub imported: Option<FrameDescriptor<()>>,
}

impl D3D11VAFrameAdapter {
    /// An adapter without a texture.
    pub fn new() -> (adapter: D3D11VAFrameAdapter)
        ensures
            adapter.imported is None,
    {
        D3D11VAFrameAdapter { imported: None }
    }

    /// Whether the adapter takes frames of this format.
    pub fn supports_format(format: PixelFormat) -> (supported: bool)
        ensures
            supported == (format is D3d11),
    {
        format == PixelFormat::D3d11
    }

    /// Whether a frame can be imported.
    pub fn check_frame(has_data: bool, format: PixelFormat) -> (result: Result<(), Error>)
        ensures
            result == (if !has_data {
                Err::<(), Error>(Error::InvalidFrame)
            } else if !(format is D3d11) {
                Err(Error::UnsupportedPixelFormat)
            } else {
                Ok(())
            }),
    {
        if !has_data {
            return Err(Error::InvalidFrame);
        }
        if format != PixelFormat::D3d11 {
            return Err(Error::UnsupportedPixelFormat);
        }
        Ok(())
    }

    /// The texture to make for frames of this size and DXGI format: none where there is one.
    pub fn prepare(&self, backend: Backend, width: u32, height: u32, format: i32) -> (result:
        Result<Option<ImportPlan>, Error>)
        ensures
            match result {
                Ok(None) => self.imported is Some,
                Ok(Some(plan)) => {
                    &&& self.imported is None
                    &&& shares_with(AdapterKind::D3D11VA, backend)
                    &&& plan.texture == shared_texture(width, height, format)
                    &&& dxgi_yuv_format(format) == Some(plan.format)
                    &&& dxgi_layout(format) == Some(plan.layout)
                },
                Err(error) => {
                    &&& self.imported is None
                    &&& if shares_with(AdapterKind::D3D11VA, backend) {
                        dxgi_yuv_format(format) is None && error == Error::UnsupportedPixelFormat
                    } else {
                        error == Error::UnsupportedBackend
                    }
                },
            },
    {
        if self.imported.is_some() {
            return Ok(None);
        }
        if !AdapterKind::D3D11VA.supports_backend(backend) {
            return Err(Error::UnsupportedBackend);
        }
        match (get_dxgi_yuv_format(format), get_dxgi_layout(format)) {
            (Some(yuv), Some(layout)) => {
                let texture = create_shared_texture(width, height, format);
                Ok(Some(ImportPlan { texture, format: yuv, layout }))
            },
            _ => Err(Error::UnsupportedPixelFormat),
        }
    }

    /// What comes of a step of making the texture and opening it in the other interface.
    pub fn shared(succeeded: bool) -> (result: Result<(), Error>)
        ensures
            result == (if succeeded {
                Ok::<(), Error>(())
            } else {
                Err(Error::TextureShare)
            }),
    {
        if succeeded {
            Ok(())
        } else {
            Err(Error::TextureShare)
        }
    }

    /// What comes of taking or giving back the mutex of the texture.
    pub fn synchronized(succeeded: bool) -> (result: Result<(), Error>)
        ensures
            result == (if succeeded {
                Ok::<(), Error>(())
            } else {
                Err(Error::Unknown)
            }),
    {
        if succeeded {
            Ok(())
        } else {
            Err(Error::Unknown)
        }
    }

    /// Takes note that the texture of a plan was made.
    pub fn texture_made(&mut self, plan: &ImportPlan)
        ensures
            final(self).imported == Some(plan.layout.identity()),
    {
        self.imported = Some(plan.layout.as_identity());
    }

    /// The layout of the texture.
    pub fn layout_identity(&self) -> (identity: Option<FrameDescriptor<()>>)
        ensures
            identity == self.imported,
    {
        self.imported
    }
}

/// A DXGI format has a texture format exactly where it has planes, and there is a pipeline for
/// them.
pub proof fn law_dxgi_formats_can_be_drawn(format: i32)
    ensures
        dxgi_yuv_format(format) is Some <==> dxgi_layout(format) is Some,
        dxgi_layout(format) matches Some(layout) ==> is_drawable(layout.planes),
{
}

/// The DXGI formats have the planes and the depth of the pixel formats of their names, so that a
/// frame is drawn in the same way whether it is shared or copied.
pub proof fn law_shared_frames_are_drawn_as_copied_ones(format: i32)
    ensures
        dxgi_yuv_format(format) == Some(YuvFormat::NV12) <==> format == 103,
        dxgi_yuv_format(format) == Some(YuvFormat::P010) <==> format == 104,
        dxgi_yuv_format(format) is Some <==> format == 103 || format == 104,
        format == 103 ==> dxgi_layout(format) == texture_format_of(PixelFormat::Nv12),
        format == 104 ==> dxgi_layout(format) == texture_format_of(PixelFormat::P010le),
        format != 103 && format != 104 ==> dxgi_layout(format) is None,
{
}

/// A shared texture has the size and the format of the frames, a single image of a single sample,
/// can be sampled, and can be opened by an NT handle under a keyed mutex.
pub proof fn law_shared_textures_are_like_their_frames(width: u32, height: u32, format: i32)
    ensures
        ({
            let texture = shared_texture(width, height, format);
            &&& texture.width == width
            &&& texture.height == height
            &&& texture.format == format
            &&& texture.mip_levels == 1
            &&& texture.array_size == 1
            &&& texture.sample_count == 1
            &&& texture.sample_quality == 0
            &&& texture.bind_flags == 0x8
            &&& texture.cpu_access_flags == 0
            &&& texture.misc_flags & 0x800 == 0x800
            &&& texture.misc_flags & 0x100 == 0x100
            &&& texture.misc_flags == 0x900
        }),
{
    assert(0x900u32 & 0x800 == 0x800) by (bit_vector);
    assert(0x900u32 & 0x100 == 0x100) by (bit_vector);
}

} // verus!
