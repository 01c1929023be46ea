//! A decoder for frames of VA-API that falls back to copies through the CPU by itself: where
//! the graphics interface is not Vulkan, and from the first frame on that cannot be imported.
use crate::context::layout::{PixelFormat, TextureFormat, TextureSpec};
use crate::decode::hw::software::PlaneUpload;
use crate::decode::hw::vaapi::{DrmFrame, PlaneImport};
use crate::decode::hw::Backend;
use vstd::prelude::*;

verus! {

/// How frames reach the textures.
#[derive(Debug, Clone, Copy, PartialEq, Eq, Structural)]
pub enum ImportedTexture {
    /// As DMA buffers that are shared with Vulkan.
    VulkanDRM,
    /// By a copy of both planes.
    PlanarCopy,
}

/// The textures for luma and chroma of frames of this size, however frames reach them. The texture
/// for chroma is as large as the frame, of which chroma fills a quarter.
pub open spec fn texture_specs(width: u32, height: u32) -> (TextureSpec, TextureSpec) {
    (
        TextureSpec { width, height, format: TextureFormat::R8Unorm },
        TextureSpec { width, height, format: TextureFormat::Rg8Unorm },
    )
}

impl ImportedTexture {
    /// The textures for luma and chroma of frames of this size.
    pub fn textures(width: u32, height: u32) -> (textures: (TextureSpec, TextureSpec))
        ensures
            textures == texture_specs(width, height),
    {
        (
            TextureSpec { width, height, format: TextureFormat::R8Unorm },
            TextureSpec { width, height, format: TextureFormat::Rg8Unorm },
        )
    }
}

/// The import of plane `plane` of a frame of this size: the whole buffer that it lies in.
pub open spec fn object_import(frame: DrmFrame, plane: int, width: u32, height: u32) -> PlaneImport {
    let source = frame.layers@[plane].plane;
    let object = frame.objects@[source.object_index as int];
    PlaneImport {
        fd: object.fd,
        buffer_size: object.size as u64,
        memory_offset: 0,
        object_size: object.size,
        bytes_per_row: source.pitch,
        width: if plane == 0 {
            width
        } else {
            width / 2
        },
        height: if plane == 0 {
            height
        } else {
            height / 2
        },
    }
}

/// The imports of a frame that was mapped: none where it is not one of luma and interleaved
/// chroma.
pub fn import_objects(frame: &DrmFrame, width: u32, height: u32) -> (imports: Option<
    [PlaneImport; 2],
>)
    requires
        frame.has_luma_and_chroma() ==> frame.has_objects(),
    ensures
        match imports {
            Some(imports) => {
                &&& frame.has_luma_and_chroma()
                &&& imports[0] == object_import(*frame, 0, width, height)
                &&& imports[1] == object_import(*frame, 1, width, height)
            },
            None => !frame.has_luma_and_chroma(),
        },
{
    if !frame.is_luma_and_chroma() {
        return None;
    }
    let luma = frame.layers[0].plane;
    let chroma = frame.layers[1].plane;
    let luma_object = frame.objects[luma.object_index];
    let chroma_object = frame.objects[chroma.object_index];
    Some(
        [
            PlaneImport {
                fd: luma_object.fd,
                buffer_size: luma_object.size as u64,
                memory_offset: 0,
                object_size: luma_object.size,
                bytes_per_row: luma.pitch,
                width,
                height,
            },
            PlaneImport {
                fd: chroma_object.fd,
                buffer_size: chroma_object.size as u64,
                memory_offset: 0,
                object_size: chroma_object.size,
                bytes_per_row: chroma.pitch,
                width: width / 2,
                height: height / 2,
            },
        ],
    )
}

/// The copies of an NV12 frame that lies in one piece: luma first, then chroma.
#[derive(Debug, Clone, Copy, PartialEq, Eq, Structural)]
pub struct PlanarCopy {
    /// How many bytes the frame holds.
    pub data_len: usize,
    pub luma: PlaneUpload,
    /// Starts where luma ends.
    pub chroma: PlaneUpload,
}

/// The copies of a frame of this size.
pub fn planar_copy(width: i32, height: i32) -> (copy: PlanarCopy)
    requires
        0 <= width,
        0 <= height,
        width * height * 3 <= i32::MAX,
    ensures
        copy.data_len == width * height * 3 / 2,
        copy.luma == (PlaneUpload {
            data_len: (width * height) as usize,
            bytes_per_row: width as u32,
            width: width as u32,
            height: height as u32,
        }),
        copy.chroma == (PlaneUpload {
            data_len: (width * height * 3 / 2 - width * height) as usize,
            bytes_per_row: width as u32,
            width: (width / 2) as u32,
            height: (height / 2) as u32,
        }),
        copy.luma.data_len + copy.chroma.data_len == copy.data_len,
{
    assert(0 <= width * height) by (nonlinear_arith)
        requires
            0 <= width,
            0 <= height,
    ;
    let luma_len: i32 = width * height;
    let data_len: i32 = luma_len * 3 / 2;
    PlanarCopy {
        data_len: data_len as usize,
        luma: PlaneUpload {
            data_len: luma_len as usize,
            bytes_per_row: width as u32,
            width: width as u32,
            height: height as u32,
        },
        chroma: PlaneUpload {
            data_len: (data_len - luma_len) as usize,
            bytes_per_row: width as u32,
            width: width as u32 / 2,
            height: height as u32 / 2,
        },
    }
}

/// What to do with a frame.
#[derive(Debug, Clone, Copy, PartialEq, Eq, Structural)]
pub struct ImportStep {
    pub imported: ImportedTexture,
    /// The textures have to be made first.
    pub make: bool,
}

/// Decodes frames of VA-API.
pub struct VAAPIHardwareDecoder {
    /// How frames reach the textures, once there was one.
    pub imported: Option<ImportedTexture>,
}

/// How the first frame reaches the textures.
pub open spec fn first_import(backend: Backend) -> ImportedTexture {
    if backend is Vulkan {
        ImportedTexture::VulkanDRM
    } else {
        ImportedTexture::PlanarCopy
    }
}

impl VAAPIHardwareDecoder {
    /// A decoder without textures.
    pub fn new() -> (decoder: VAAPIHardwareDecoder)
        ensures
            decoder.imported is None,
    {
        VAAPIHardwareDecoder { imported: None }
    }

    /// How a frame is to be imported.
    pub fn import_frame(&mut self, format: PixelFormat, backend: Backend) -> (step: ImportStep)
        requires
            format is Vaapi,
        ensures
            final(self).imported == Some(step.imported),
            match old(self).imported {
                Some(imported) => step == (ImportStep { imported, make: false }),
                None => step == (ImportStep { imported: first_import(backend), make: true }),
            },
    {
        match self.imported {
            Some(imported) => ImportStep { imported, make: false },
            None => {
                let imported = match backend {
                    Backend::Vulkan => ImportedTexture::VulkanDRM,
                    _ => ImportedTexture::PlanarCopy,
                };
                self.imported = Some(imported);
                ImportStep { imported, make: true }
            },
        }
    }

    /// Takes note whether the frame was imported. Returns whether there is something to draw:
    /// where sharing failed, this frame is left out, and the following ones are copied.
    pub fn frame_imported(&mut self, succeeded: bool) -> (drawn: bool)
        requires
            old(self).imported is Some,
        ensures
            if old(self).imported == Some(ImportedTexture::VulkanDRM) && !succeeded {
                !drawn && final(self).imported == Some(ImportedTexture::PlanarCopy)
            } else {
                drawn && final(self).imported == old(self).imported
            },
    {
        let shared = match self.imported {
            Some(ImportedTexture::VulkanDRM) => true,
            _ => false,
        };
        if shared && !succeeded {
            self.imported = Some(ImportedTexture::PlanarCopy);
            return false;
        }
        true
    }
}

/// Both textures are as large as the frame, luma with one 8-bit channel and chroma with two.
pub proof fn law_textures_are_as_large_as_the_frame(width: u32, height: u32)
    ensures
        ({
            let (luma, chroma) = texture_specs(width, height);
            &&& luma.width == width && luma.height == height
            &&& chroma.width == width && chroma.height == height
            &&& luma.format.channels() == 1 && luma.format.bits() == 8
            &&& chroma.format.channels() == 2 && chroma.format.bits() == 8
        }),
{
}

/// Each plane is imported from the whole buffer that its own layer names, with the rows of that
/// plane, and is no larger than its texture.
pub proof fn law_whole_buffers_are_imported(
    frame: DrmFrame,
    plane: int,
    width: u32,
    height: u32,
)
    requires
        frame.has_luma_and_chroma(),
        frame.has_objects(),
        0 <= plane < 2,
    ensures
        ({
            let import = object_import(frame, plane, width, height);
            let source = frame.layers@[plane].plane;
            let object = frame.objects@[source.object_index as int];
            &&& import.fd == object.fd
            &&& import.object_size == object.size
            &&& import.buffer_size == object.size
            &&& import.memory_offset == 0
            &&& import.bytes_per_row == source.pitch
            &&& plane == 0 ==> import.width == width && import.height == height
            &&& plane == 1 ==> 2 * import.width <= width < 2 * import.width + 2
            &&& plane == 1 ==> 2 * import.height <= height < 2 * import.height + 2
        }),
{
}

/// The first frame is shared exactly where the graphics interface is Vulkan.
pub proof fn law_frames_are_shared_with_vulkan(backend: Backend)
    ensures
        first_import(backend) == ImportedTexture::VulkanDRM <==> backend == Backend::Vulkan,
        first_import(backend) == ImportedTexture::PlanarCopy <==> backend != Backend::Vulkan,
{
}

} // verus!
