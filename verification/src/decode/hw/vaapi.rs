//! Frames of VA-API, shared with Vulkan as DMA buffers.
use crate::context::layout::{
    create_frame_textures, plane_descriptors, plane_seq, texture_format_of, Depth, FrameDescriptor,
    PixelFormat, PlaneLayout, TextureFormat, TextureSpec,
};
use crate::decode::hw::{shares_with, AdapterKind, Backend};
use crate::error::Error;
use vstd::prelude::*;

verus! {

/// The DRM format of one 8-bit channel.
pub const DRM_FORMAT_R8: u32 = 538982482;

/// The DRM format of two 8-bit channels.
pub const DRM_FORMAT_GR88: u32 = 943215175;

/// A buffer that a DRM frame lies in.
#[derive(Debug, Clone, Copy, PartialEq, Eq, Structural)]
pub struct DrmObject {
    pub fd: i32,
    pub size: usize,
}

/// A plane of a layer: where it lies in which buffer.
#[derive(Debug, Clone, Copy, PartialEq, Eq, Structural)]
pub struct DrmPlane {
    pub object_index: usize,
    pub offset: u64,
    /// How many bytes a row takes.
    pub pitch: u32,
}

/// A layer of a DRM frame, with its first plane.
#[derive(Debug, Clone, Copy, PartialEq, Eq, Structural)]
pub struct DrmLayer {
    pub format: u32,
    pub plane: DrmPlane,
}

/// A frame that was mapped to DRM buffers.
pub struct DrmFrame {
    pub objects: Vec<DrmObject>,
    pub layers: Vec<DrmLayer>,
}

impl DrmFrame {
    /// The frame is one of luma and one of chroma.
    pub open spec fn has_luma_and_chroma(&self) -> bool {
        &&& self.layers@.len() == 2
        &&& self.layers@[0].format == DRM_FORMAT_R8
        &&& self.layers@[1].format == DRM_FORMAT_GR88
    }

    /// The planes lie in buffers that there are.
    pub open spec fn has_objects(&self) -> bool {
        forall|i: int|
            0 <= i < self.layers@.len() ==> (#[trigger] self.layers@[i]).plane.object_index
                < self.objects@.len()
    }

    /// Whether the frame is one of luma and one of chroma.
    pub fn is_luma_and_chroma(&self) -> (both: bool)
        ensures
            both == self.has_luma_and_chroma(),
    {
        self.layers.len() == 2 && self.layers[0].format == DRM_FORMAT_R8 && self.layers[1].format
            == DRM_FORMAT_GR88
    }
}

/// A DMA buffer to import, and the copy out of it.
#[derive(Debug, Clone, Copy, PartialEq, Eq, Structural)]
pub struct PlaneImport {
    pub fd: i32,
    /// How large the buffer is made.
    pub buffer_size: u64,
    /// Where in the memory the buffer is bound.
    pub memory_offset: u64,
    /// How large the memory is.
    pub object_size: usize,
    pub bytes_per_row: u32,
    pub width: u32,
    pub height: u32,
}

/// The import of plane `plane` of a frame of this size.
pub open spec fn plane_import(frame: DrmFrame, plane: int, width: u32, height: u32) -> PlaneImport {
    let source = frame.layers@[plane].plane;
    let object = frame.objects@[source.object_index as int];
    let bytes = source.pitch * height;
    PlaneImport {
        fd: object.fd,
        buffer_size: (if plane == 0 {
            bytes
        } else {
            bytes / 2
        }) as u64,
        memory_offset: source.offset,
        object_size: object.size,
        bytes_per_row: source.pitch,
        width: if plane == 0 {
            width
        } else {
            width / 2
        },
        height: if plane == 0 {
            height
        } else {
            height / 2
        },
    }
}

/// Calls `ash::vk::MemoryPropertyFlags::contains`, which tells whether every bit of the second
/// set is in the first: here, whether memory with the properties `flags` is local to the
/// device, which the lowest bit says.
#[verifier::external_body]
fn is_device_local(flags: u32) -> (local: bool)
    ensures
        local == (flags & 1u32 == 1u32),
{
    ash::vk::MemoryPropertyFlags::from_raw(flags).contains(
        ash::vk::MemoryPropertyFlags::DEVICE_LOCAL,
    )
}

/// The first `count` types of memory are not local to the device.
pub open spec fn none_local(flags: Seq<u32>, count: int) -> bool {
    forall|i: int| 0 <= i < count ==> #[trigger] flags[i] & 1u32 != 1u32
}

/// The type of memory to import buffers to, out of the properties of all types: the first one
/// that is local to the device, or the first of all.
pub fn find_memory_type(flags: &Vec<u32>) -> (index: usize)
    ensures
        none_local(flags@, flags@.len() as int) ==> index == 0,
        !none_local(flags@, flags@.len() as int) ==> index < flags@.len() && flags@[index as int]
            & 1u32 == 1u32 && none_local(flags@, index as int),
{
    let mut i: usize = 0;
    while i < flags.len()
        invariant
            i <= flags@.len(),
            none_local(flags@, i as int),
        decreases flags@.len() - i,
    {
        if is_device_local(flags[i]) {
            return i;
        }
        i = i + 1;
    }
    0
}

/// The textures that frames are copied to.
pub struct VulkanDRMTexture {
    pub textures: PlaneLayout<TextureSpec>,
    pub identity: FrameDescriptor<()>,
}

impl VulkanDRMTexture {
    /// The textures are those of 8-bit luma and interleaved chroma for a frame of this size.
    pub open spec fn fits(&self, width: u32, height: u32) -> bool {
        &&& self.identity.depth == Depth::D8
        &&& self.identity.planes == self.textures.identity()
        &&& self.textures is PackedYUV420
        &&& plane_seq(self.textures) == seq![
            TextureSpec { width, height, format: TextureFormat::R8Unorm },
            TextureSpec {
                width: width / 2,
                height: height / 2,
                format: TextureFormat::Rg8Unorm,
            },
        ]
    }

    /// The textures for frames of this size.
    pub fn new(width: u32, height: u32) -> (texture: VulkanDRMTexture)
        ensures
            texture.fits(width, height),
    {
        let formats = PlaneLayout::PackedYUV420(
            [TextureFormat::R8Unorm, TextureFormat::Rg8Unorm],
        );
        let textures = create_frame_textures(&formats, width, height);
        proof {
            let planes = plane_seq(textures);
            assert(planes.len() == 2 && plane_seq(formats).len() == 2);
            let luma = plane_descriptors(formats)[0];
            let chroma = plane_descriptors(formats)[1];
            assert(luma.width_div == 1 && luma.height_div == 1);
            assert(chroma.width_div == 2 && chroma.height_div == 2);
            assert(width / 1 == width && height / 1 == height);
            assert(plane_seq(formats)[0] == TextureFormat::R8Unorm);
            assert(planes[0] == TextureSpec { width, height, format: TextureFormat::R8Unorm });
            assert(planes[1].format == TextureFormat::Rg8Unorm);
            assert(planes =~= seq![planes[0], planes[1]]);
        }
        let identity = FrameDescriptor { planes: textures.as_identity(), depth: Depth::D8 };
        VulkanDRMTexture { textures, identity }
    }

    /// Whether a frame was mapped, after mapping it gave `code`. One that was not is not
    /// imported.
    pub fn is_mapped(code: i32) -> (mapped: bool)
        ensures
            mapped == (code == 0),
    {
        code == 0
    }

    /// What to import of a frame that was mapped, and whether that can be done: other layouts
    /// than luma and interleaved chroma cannot be imported. The textures stay the same from the
    /// first frame on: a smaller one is copied to their beginning.
    pub fn import_frame(&self, frame: &DrmFrame, width: u32, height: u32) -> (imports: Option<
        [PlaneImport; 2],
    >)
        requires
            frame.has_luma_and_chroma() ==> frame.has_objects(),
        ensures
            match imports {
                Some(imports) => {
                    &&& frame.has_luma_and_chroma()
                    &&& imports[0] == plane_import(*frame, 0, width, height)
                    &&& imports[1] == plane_import(*frame, 1, width, height)
                },
                None => !frame.has_luma_and_chroma(),
            },
    {
        if !frame.is_luma_and_chroma() {
            return None;
        }
        let luma = frame.layers[0].plane;
        let chroma = frame.layers[1].plane;
        let luma_object = frame.objects[luma.object_index];
        let chroma_object = frame.objects[chroma.object_index];
        assert(luma.pitch * height <= 0xffff_ffff * 0xffff_ffff) by (nonlinear_arith)
            requires
                luma.pitch <= 0xffff_ffff,
                height <= 0xffff_ffff,
        ;
        assert(chroma.pitch * height <= 0xffff_ffff * 0xffff_ffff) by (nonlinear_arith)
            requires
                chroma.pitch <= 0xffff_ffff,
                height <= 0xffff_ffff,
        ;
        Some(
            [
                PlaneImport {
                    fd: luma_object.fd,
                    buffer_size: luma.pitch as u64 * height as u64,
                    memory_offset: luma.offset,
                    object_size: luma_object.size,
                    bytes_per_row: luma.pitch,
                    width,
                    height,
                },
                PlaneImport {
                    fd: chroma_object.fd,
                    buffer_size: chroma.pitch as u64 * height as u64 / 2,
                    memory_offset: chroma.offset,
                    object_size: chroma_object.size,
                    bytes_per_row: chroma.pitch,
                    width: width / 2,
                    height: height / 2,
                },
            ],
        )
    }
}

/// Shares frames of VA-API with Vulkan.
pub struct VAAPIFrameAdapter {
    /// The textures, once there was a frame.
    pub imported: Option<VulkanDRMTexture>,
}

impl VAAPIFrameAdapter {
    /// An adapter without textures.
    pub fn new() -> (adapter: VAAPIFrameAdapter)
        ensures
            adapter.imported is None,
    {
        VAAPIFrameAdapter { imported: None }
    }

    /// Whether the adapter takes frames of this format.
    pub fn supports_format(format: PixelFormat) -> (supported: bool)
        ensures
            supported == (format is Vaapi),
    {
        format == PixelFormat::Vaapi
    }

    /// Plans the textures for a frame, where there are none yet. Returns whether they have to
    /// be made.
    pub fn prepare(&mut self, format: PixelFormat, backend: Backend, width: u32, height: u32) -> (
    result: Result<bool, Error>)
        ensures
            !(format is Vaapi) ==> result == Err::<bool, Error>(Error::UnsupportedPixelFormat)
                && *final(self) == *old(self),
            format is Vaapi && old(self).imported is Some ==> result == Ok::<bool, Error>(false)
                && *final(self) == *old(self),
            format is Vaapi && old(self).imported is None ==> if shares_with(
                AdapterKind::VaApi,
                backend,
            ) {
                &&& result == Ok::<bool, Error>(true)
                &&& final(self).imported matches Some(texture)
                &&& texture.fits(width, height)
            } else {
                &&& result == Err::<bool, Error>(Error::UnsupportedBackend)
                &&& *final(self) == *old(self)
            },
    {
        if format != PixelFormat::Vaapi {
            return Err(Error::UnsupportedPixelFormat);
        }
        if self.imported.is_some() {
            return Ok(false);
        }
        if !AdapterKind::VaApi.supports_backend(backend) {
            return Err(Error::UnsupportedBackend);
        }
        self.imported = Some(VulkanDRMTexture::new(width, height));
        Ok(true)
    }

    /// The layout of the textures.
    pub fn layout_identity(&self) -> (identity: Option<FrameDescriptor<()>>)
        ensures
            identity == (match self.imported {
                Some(imported) => Some(imported.identity),
                None => None,
            }),
    {
        match &self.imported {
            Some(imported) => Some(imported.identity),
            None => None,
        }
    }
}

/// Each plane is copied to the whole of its texture, and the buffer that is imported holds the
/// rows of the copy.
pub proof fn law_imports_fill_the_textures(
    texture: VulkanDRMTexture,
    frame: DrmFrame,
    plane: int,
    width: u32,
    height: u32,
)
    requires
        texture.fits(width, height),
        0 <= plane < 2,
    ensures
        ({
            let import = plane_import(frame, plane, width, height);
            let target = plane_seq(texture.textures)[plane];
            &&& import.width == target.width
            &&& import.height == target.height
            &&& import.buffer_size >= import.bytes_per_row * import.height
        }),
{
    let pitch = frame.layers@[plane].plane.pitch;
    assert(0 <= pitch * height <= 0xffff_ffff * 0xffff_ffff) by (nonlinear_arith)
        requires
            0 <= pitch <= 0xffff_ffff,
            0 <= height <= 0xffff_ffff,
    ;
    assert(pitch * (height / 2) <= pitch * height / 2) by (nonlinear_arith)
        requires
            0 <= pitch,
            0 <= height,
    ;
}

/// A DRM format is the number of four characters, the first in the lowest byte.
pub proof fn law_drm_formats_are_four_characters()
    ensures
        DRM_FORMAT_R8 == 'R' as u32 + 0x100 * ('8' as u32) + 0x1_0000 * (' ' as u32) + 0x100_0000 * (
        ' ' as u32),
        DRM_FORMAT_GR88 == 'G' as u32 + 0x100 * ('R' as u32) + 0x1_0000 * ('8' as u32) + 0x100_0000
            * ('8' as u32),
{
}

/// Each plane is imported from the buffer that its own layer names, at the offset and with the rows
/// of that plane. Luma has the size of the frame and of all its rows; chroma half of both, rounded
/// down.
pub proof fn law_planes_are_imported_from_their_own_buffer(
    frame: DrmFrame,
    plane: int,
    width: u32,
    height: u32,
)
    requires
        frame.has_luma_and_chroma(),
        frame.has_objects(),
        0 <= plane < 2,
    ensures
        ({
            let import = plane_import(frame, plane, width, height);
            let source = frame.layers@[plane].plane;
            let object = frame.objects@[source.object_index as int];
            &&& import.fd == object.fd
            &&& import.object_size == object.size
            &&& import.memory_offset == source.offset
            &&& import.bytes_per_row == source.pitch
            &&& plane == 0 ==> import.width == width && import.height == height
            &&& plane == 0 ==> import.buffer_size == source.pitch * height
            &&& plane == 1 ==> 2 * import.width <= width < 2 * import.width + 2
            &&& plane == 1 ==> 2 * import.height <= height < 2 * import.height + 2
            &&& plane == 1 ==> 2 * import.buffer_size <= source.pitch * height < 2
                * import.buffer_size + 2
        }),
{
    let pitch = frame.layers@[plane].plane.pitch;
    assert(0 <= pitch * height <= 0xffff_ffff * 0xffff_ffff) by (nonlinear_arith)
        requires
            0 <= pitch <= 0xffff_ffff,
            0 <= height <= 0xffff_ffff,
    ;
}

/// A frame can be imported exactly where it has two layers, first one of a single 8-bit channel and
/// then one of two.
pub proof fn law_frames_have_luma_then_chroma(frame: DrmFrame)
    ensures
        frame.has_luma_and_chroma() <==> frame.layers@.len() == 2 && frame.layers@[0].format
            == 0x2020_3852 && frame.layers@[1].format == 0x3838_5247,
{
}

/// The textures are those of a frame of 8 bits with interleaved chroma: one channel in the size of
/// the frame, then two in half of it, rounded down. They are drawn as such a frame is.
pub proof fn law_textures_are_those_of_interleaved_frames(
    texture: VulkanDRMTexture,
    width: u32,
    height: u32,
)
    requires
        texture.fits(width, height),
    ensures
        ({
            let planes = plane_seq(texture.textures);
            &&& planes.len() == 2
            &&& planes[0].width == width && planes[0].height == height
            &&& 2 * planes[1].width <= width < 2 * planes[1].width + 2
            &&& 2 * planes[1].height <= height < 2 * planes[1].height + 2
            &&& planes[0].format.channels() == 1 && planes[0].format.bits() == 8
            &&& planes[1].format.channels() == 2 && planes[1].format.bits() == 8
            &&& texture_format_of(PixelFormat::Nv12) matches Some(nv12) && texture.identity
                == nv12.identity()
        }),
{
}

/// Types of memory are not local to the device exactly where their lowest property bit is not set.
pub proof fn law_local_memory_has_its_lowest_bit_set(flags: Seq<u32>, count: int, i: int)
    requires
        0 <= i < count,
        none_local(flags, count),
    ensures
        flags[i] % 2 == 0,
        none_local(flags, i),
{
    let bits = flags[i];
    assert(flags[i] & 1u32 != 1u32);
    assert(bits & 1u32 != 1u32 ==> bits % 2 == 0) by (bit_vector);
}

} // verus!
