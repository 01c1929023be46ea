//! The logic of a video player that decodes with FFmpeg and draws with wgpu: queues and clocks,
//! the decisions of the threads that read and decode, and how decoded frames reach the GPU.
use crate::decode::hw::{Backend, Platform};
use vstd::prelude::*;

pub mod channel;
pub mod context;
pub mod decode;
pub mod error;
pub mod playback;
pub mod rational;
pub mod video;

verus! {

/// Features that a device has to offer for frames to be shared with it.
#[derive(Debug, Clone, Copy, PartialEq, Eq, Structural)]
pub struct DeviceFeatures {
    pub texture_format_nv12: bool,
    pub texture_format_p010: bool,
    pub texture_format_16bit_norm: bool,
    pub vulkan_external_memory_win32: bool,
}

/// The features that a device of this graphics interface has to offer on this platform.
pub fn required_wgpu_device_features(platform: Platform, backend: Backend) -> (features:
    DeviceFeatures)
    ensures
        ({
            let shares = platform is Windows && (backend is Vulkan || backend is Dx12);
            features == DeviceFeatures {
                texture_format_nv12: shares,
                texture_format_p010: shares,
                texture_format_16bit_norm: shares,
                vulkan_external_memory_win32: shares && backend is Vulkan,
            }
        }),
{
    match (platform, backend) {
        (Platform::Windows, Backend::Vulkan) => DeviceFeatures {
            texture_format_nv12: true,
            texture_format_p010: true,
            texture_format_16bit_norm: true,
            vulkan_external_memory_win32: true,
        },
        (Platform::Windows, Backend::Dx12) => DeviceFeatures {
            texture_format_nv12: true,
            texture_format_p010: true,
            texture_format_16bit_norm: true,
            vulkan_external_memory_win32: false,
        },
        _ => DeviceFeatures {
            texture_format_nv12: false,
            texture_format_p010: false,
            texture_format_16bit_norm: false,
            vulkan_external_memory_win32: false,
        },
    }
}

} // verus!
