//! How decoded frames get to the GPU: which adapter takes the frames of which format, and what
//! each adapter decides.
pub mod d3d11va;
pub mod software;
pub mod vaapi;

use crate::context::layout::{av_pixel_texture_format, texture_format_of, PixelFormat};
use crate::error::Error;
use vstd::prelude::*;

verus! {

/// The operating system that the player runs on.
#[derive(Debug, Clone, Copy, PartialEq, Eq, Structural)]
pub enum Platform {
    Windows,
    MacOs,
    Linux,
}

/// The graphics interface that textures belong to.
#[derive(Debug, Clone, Copy, PartialEq, Eq, Structural)]
pub enum Backend {
    Vulkan,
    Dx12,
    Metal,
    Gl,
    Other,
}

/// What takes frames to the GPU.
#[derive(Debug, Clone, Copy, PartialEq, Eq, Structural)]
pub enum AdapterKind {
    D3D11VA,
    VideoToolbox,
    VaApi,
    /// Copies through the memory of the CPU.
    Software,
}

/// The adapter can share frames with this interface, without a copy through the CPU.
pub open spec fn shares_with(kind: AdapterKind, backend: Backend) -> bool {
    match kind {
        AdapterKind::D3D11VA => backend is Vulkan || backend is Dx12,
        AdapterKind::VideoToolbox => backend is Metal,
        AdapterKind::VaApi => backend is Vulkan,
        AdapterKind::Software => false,
    }
}

/// The adapter for frames of this format.
pub open spec fn adapter_for(platform: Platform, format: PixelFormat) -> Option<AdapterKind> {
    if platform is Windows && format is D3d11 {
        Some(AdapterKind::D3D11VA)
    } else if platform is MacOs && format is VideoToolbox {
        Some(AdapterKind::VideoToolbox)
    } else if platform is Linux && format is Vaapi {
        Some(AdapterKind::VaApi)
    } else if texture_format_of(format) is Some {
        Some(AdapterKind::Software)
    } else {
        None
    }
}

/// The name of an adapter.
pub open spec fn adapter_name(kind: AdapterKind) -> Seq<char> {
    match kind {
        AdapterKind::D3D11VA => "D3D11VA zero-copy"@,
        AdapterKind::VideoToolbox => "VideoToolbox zero-copy"@,
        AdapterKind::VaApi => "VA-API Vulkan DMA"@,
        AdapterKind::Software => "Software"@,
    }
}

impl AdapterKind {
    /// The adapter for frames of this format.
    pub fn for_format(platform: Platform, format: PixelFormat) -> (result: Result<AdapterKind, Error>)
        ensures
            result == (match adapter_for(platform, format) {
                Some(kind) => Ok::<AdapterKind, Error>(kind),
                None => Err(Error::UnsupportedPixelFormat),
            }),
    {
        match (platform, format) {
            (Platform::Windows, PixelFormat::D3d11) => Ok(AdapterKind::D3D11VA),
            (Platform::MacOs, PixelFormat::VideoToolbox) => Ok(AdapterKind::VideoToolbox),
            (Platform::Linux, PixelFormat::Vaapi) => Ok(AdapterKind::VaApi),
            _ => if av_pixel_texture_format(format).is_some() {
                Ok(AdapterKind::Software)
            } else {
                Err(Error::UnsupportedPixelFormat)
            },
        }
    }

    /// Whether the adapter can share frames with this interface.
    pub fn supports_backend(&self, backend: Backend) -> (supported: bool)
        ensures
            supported == shares_with(*self, backend),
    {
        match (*self, backend) {
            (AdapterKind::D3D11VA, Backend::Vulkan) => true,
            (AdapterKind::D3D11VA, Backend::Dx12) => true,
            (AdapterKind::VideoToolbox, Backend::Metal) => true,
            (AdapterKind::VaApi, Backend::Vulkan) => true,
            _ => false,
        }
    }

    /// The name of the adapter.
    pub fn name(&self) -> (name: &'static str)
        ensures
            name@ == adapter_name(*self),
    {
        match *self {
            AdapterKind::D3D11VA => "D3D11VA zero-copy",
            AdapterKind::VideoToolbox => "VideoToolbox zero-copy",
            AdapterKind::VaApi => "VA-API Vulkan DMA",
            AdapterKind::Software => "Software",
        }
    }
}

/// Frames reach the GPU without the CPU from D3D11VA to Vulkan and DX12, from VideoToolbox to
/// Metal and from VA-API to Vulkan. No adapter shares frames with OpenGL.
pub proof fn law_supported_platforms(backend: Backend)
    ensures
        adapter_for(Platform::Windows, PixelFormat::D3d11) == Some(AdapterKind::D3D11VA),
        adapter_for(Platform::MacOs, PixelFormat::VideoToolbox) == Some(AdapterKind::VideoToolbox),
        adapter_for(Platform::Linux, PixelFormat::Vaapi) == Some(AdapterKind::VaApi),
        shares_with(AdapterKind::D3D11VA, backend) <==> backend is Vulkan || backend is Dx12,
        shares_with(AdapterKind::VideoToolbox, backend) <==> backend is Metal,
        shares_with(AdapterKind::VaApi, backend) <==> backend is Vulkan,
        forall|kind: AdapterKind| !#[trigger] shares_with(kind, Backend::Gl),
{
}

/// The hardware adapters take the frames of their own format on their own platform, and nothing
/// else; frames that lie in memory are copied on every platform, and all others are refused.
pub proof fn law_adapters_take_their_own_frames(platform: Platform, format: PixelFormat)
    ensures
        ({
            let kind = adapter_for(platform, format);
            &&& kind == Some(AdapterKind::D3D11VA) <==> platform is Windows && format is D3d11
            &&& kind == Some(AdapterKind::VideoToolbox) <==> platform is MacOs
                && format is VideoToolbox
            &&& kind == Some(AdapterKind::VaApi) <==> platform is Linux && format is Vaapi
            &&& kind == Some(AdapterKind::Software) <==> format is Nv12 || format is Yuv420p
                || format is Yuv420p12le || format is P010le || format is Yuv444p
        }),
{
}

/// The adapters are told apart by their names.
pub proof fn law_names_tell_adapters_apart(a: AdapterKind, b: AdapterKind)
    ensures
        adapter_name(a) == adapter_name(b) <==> a == b,
        adapter_name(AdapterKind::D3D11VA) == "D3D11VA zero-copy"@,
        adapter_name(AdapterKind::VaApi) == "VA-API Vulkan DMA"@,
        adapter_name(AdapterKind::Software) == "Software"@,
{
    reveal_strlit("D3D11VA zero-copy");
    reveal_strlit("VideoToolbox zero-copy");
    reveal_strlit("VA-API Vulkan DMA");
    reveal_strlit("Software");
    assert("D3D11VA zero-copy"@[0] == 'D');
    assert("VideoToolbox zero-copy"@.len() == 22);
    assert("VA-API Vulkan DMA"@[0] == 'V');
    assert("VA-API Vulkan DMA"@.len() == 17);
    assert("Software"@[0] == 'S');
}

} // verus!
