//! How the planes of a frame lie in textures.
use vstd::prelude::*;

verus! {

/// The formats that decoders give frames in, as far as the player tells them apart.
#[derive(Debug, Clone, Copy, PartialEq, Eq, Structural, Hash)]
pub enum PixelFormat {
    /// No format: the end of a list of formats.
    Absent,
    /// Two planes of 8 bits, the second with both chroma channels at half size.
    Nv12,
    /// Three planes of 8 bits, chroma at half size.
    Yuv420p,
    /// Three planes of 12 bits in 16, chroma at half size.
    Yuv420p12le,
    /// Two planes of 10 bits in the upper part of 16, chroma at half size.
    P010le,
    /// Three planes of 8 bits, all of full size.
    Yuv444p,
    /// A VA-API surface.
    Vaapi,
    /// A Direct3D 11 texture.
    D3d11,
    /// A VideoToolbox pixel buffer.
    VideoToolbox,
    /// A DRM buffer.
    DrmPrime,
    /// Any other format, by its number.
    Other(i32),
}

/// The texture formats that planes are held in.
#[derive(Debug, Clone, Copy, PartialEq, Eq, Structural, Hash)]
pub enum TextureFormat {
    R8Unorm,
    Rg8Unorm,
    R16Unorm,
    Rg16Unorm,
}

impl TextureFormat {
    /// How many channels a texel has.
    pub open spec fn channels(&self) -> u32 {
        match self {
            TextureFormat::R8Unorm => 1,
            TextureFormat::Rg8Unorm => 2,
            TextureFormat::R16Unorm => 1,
            TextureFormat::Rg16Unorm => 2,
        }
    }

    /// How many bits a channel has.
    pub open spec fn bits(&self) -> u32 {
        match self {
            TextureFormat::R8Unorm => 8,
            TextureFormat::Rg8Unorm => 8,
            TextureFormat::R16Unorm => 16,
            TextureFormat::Rg16Unorm => 16,
        }
    }
}

/// One `T` for each plane of a frame.
#[derive(Debug, Clone, Copy, PartialEq, Eq, PartialOrd, Ord, Hash)]
pub enum PlaneLayout<T> {
    /// Luma, then both chroma channels interleaved at half size.
    PackedYUV420([T; 2]),
    /// Luma, then each chroma channel at half size.
    YUV420([T; 3]),
    /// Luma, then each chroma channel at full size.
    YUV444([T; 3]),
    /// Red, green and blue interleaved.
    RGB(T),
}

/// What a plane is, beside the frame that it belongs to.
#[derive(Debug, Clone, Copy, PartialEq, Eq, Structural)]
pub struct PlaneDescriptor {
    /// How often the plane's width goes into the frame's.
    pub width_div: u32,
    /// How often the plane's height goes into the frame's.
    pub height_div: u32,
    /// How many channels the plane interleaves.
    pub channels: u32,
}

/// Which of the layouts it is.
pub open spec fn layout_kind<T>(planes: PlaneLayout<T>) -> nat {
    match planes {
        PlaneLayout::PackedYUV420(_) => 0,
        PlaneLayout::YUV420(_) => 1,
        PlaneLayout::YUV444(_) => 2,
        PlaneLayout::RGB(_) => 3,
    }
}

/// The planes, in order.
pub open spec fn plane_seq<T>(planes: PlaneLayout<T>) -> Seq<T> {
    match planes {
        PlaneLayout::PackedYUV420(p) => p@,
        PlaneLayout::YUV420(p) => p@,
        PlaneLayout::YUV444(p) => p@,
        PlaneLayout::RGB(p) => seq![p],
    }
}

/// What each plane of a layout is, in order.
pub open spec fn plane_descriptors<T>(planes: PlaneLayout<T>) -> Seq<PlaneDescriptor> {
    let full = PlaneDescriptor { width_div: 1, height_div: 1, channels: 1 };
    let half = PlaneDescriptor { width_div: 2, height_div: 2, channels: 1 };
    let packed = PlaneDescriptor { width_div: 2, height_div: 2, channels: 2 };
    let rgb = PlaneDescriptor { width_div: 1, height_div: 1, channels: 3 };
    match planes {
        PlaneLayout::PackedYUV420(_) => seq![full, packed],
        PlaneLayout::YUV420(_) => seq![full, half, half],
        PlaneLayout::YUV444(_) => seq![full, full, full],
        PlaneLayout::RGB(_) => seq![rgb],
    }
}

fn plane(width_div: u32, height_div: u32, channels: u32) -> (descriptor: PlaneDescriptor)
    ensures
        descriptor == (PlaneDescriptor { width_div, height_div, channels }),
{
    PlaneDescriptor { width_div, height_div, channels }
}

impl<T> PlaneLayout<T> {
    /// The same layout with what `f` makes of each plane.
    pub fn map<U>(&self, mut f: impl FnMut(&T, PlaneDescriptor) -> U) -> (mapped: PlaneLayout<U>)
        requires
            forall|i: int|
                0 <= i < plane_seq(*self).len() ==> call_requires(
                    f,
                    (&#[trigger] plane_seq(*self)[i], plane_descriptors(*self)[i]),
                ),
        ensures
            layout_kind(mapped) == layout_kind(*self),
            plane_seq(mapped).len() == plane_seq(*self).len(),
            forall|i: int|
                0 <= i < plane_seq(*self).len() ==> call_ensures(
                    f,
                    (&plane_seq(*self)[i], plane_descriptors(*self)[i]),
                    #[trigger] plane_seq(mapped)[i],
                ),
    {
        let ghost descriptors = plane_descriptors(*self);
        assert(forall|i: int|
            0 <= i < descriptors.len() ==> call_requires(
                f,
                (&plane_seq(*self)[i], #[trigger] descriptors[i]),
            ));
        match self {
            PlaneLayout::PackedYUV420(p) => {
                assert(plane_seq(*self)[0] == p[0] && plane_seq(*self)[1] == p[1]);
                assert(call_requires(f, (&p[0], descriptors[0])));
                PlaneLayout::PackedYUV420([f(&p[0], plane(1, 1, 1)), f(&p[1], plane(2, 2, 2))])
            },
            PlaneLayout::YUV420(p) => {
                assert(plane_seq(*self)[0] == p[0] && plane_seq(*self)[1] == p[1]
                    && plane_seq(*self)[2] == p[2]);
                PlaneLayout::YUV420(
                    [
                        f(&p[0], plane(1, 1, 1)),
                        f(&p[1], plane(2, 2, 1)),
                        f(&p[2], plane(2, 2, 1)),
                    ],
                )
            },
            PlaneLayout::YUV444(p) => {
                assert(plane_seq(*self)[0] == p[0] && plane_seq(*self)[1] == p[1]
                    && plane_seq(*self)[2] == p[2]);
                PlaneLayout::YUV444(
                    [
                        f(&p[0], plane(1, 1, 1)),
                        f(&p[1], plane(1, 1, 1)),
                        f(&p[2], plane(1, 1, 1)),
                    ],
                )
            },
            PlaneLayout::RGB(p) => {
                assert(plane_seq(*self)[0] == p);
                PlaneLayout::RGB(f(p, plane(1, 1, 3)))
            },
        }
    }

    /// The layout alone.
    pub open spec fn identity(&self) -> PlaneLayout<()> {
        match self {
            PlaneLayout::PackedYUV420(_) => PlaneLayout::PackedYUV420([(), ()]),
            PlaneLayout::YUV420(_) => PlaneLayout::YUV420([(), (), ()]),
            PlaneLayout::YUV444(_) => PlaneLayout::YUV444([(), (), ()]),
            PlaneLayout::RGB(_) => PlaneLayout::RGB(()),
        }
    }

    /// The layout alone.
    pub fn as_identity(&self) -> (identity: PlaneLayout<()>)
        ensures
            identity == self.identity(),
    {
        let identity = self.map(|_plane: &T, _descriptor: PlaneDescriptor| -> (nothing: ()) {  });
        proof {
            match identity {
                PlaneLayout::PackedYUV420(p) => {
                    assert(p =~= [(), ()]);
                },
                PlaneLayout::YUV420(p) => {
                    assert(p =~= [(), (), ()]);
                },
                PlaneLayout::YUV444(p) => {
                    assert(p =~= [(), (), ()]);
                },
                PlaneLayout::RGB(_) => {},
            }
        }
        identity
    }
}

/// How many bits of a texel carry the value.
#[derive(Debug, Clone, Copy, PartialEq, Eq, Structural, PartialOrd, Ord, Hash)]
pub enum Depth {
    D8,
    D10,
    D12,
    D16,
}

/// A frame: its planes, and how deep their values are.
#[derive(Debug, Clone, Copy, PartialEq, Eq, PartialOrd, Ord, Hash)]
pub struct FrameDescriptor<T> {
    pub planes: PlaneLayout<T>,
    pub depth: Depth,
}

impl<T> FrameDescriptor<T> {
    /// The layout and depth alone.
    pub open spec fn identity(&self) -> FrameDescriptor<()> {
        FrameDescriptor { planes: self.planes.identity(), depth: self.depth }
    }

    /// The layout and depth alone.
    pub fn as_identity(&self) -> (identity: FrameDescriptor<()>)
        ensures
            identity == self.identity(),
    {
        FrameDescriptor { planes: self.planes.as_identity(), depth: self.depth }
    }
}

/// The textures that frames of a pixel format are held in, where there are such textures.
pub open spec fn texture_format_of(format: PixelFormat) -> Option<FrameDescriptor<TextureFormat>> {
    match format {
        PixelFormat::Nv12 => Some(
            FrameDescriptor {
                planes: PlaneLayout::PackedYUV420(
                    [TextureFormat::R8Unorm, TextureFormat::Rg8Unorm],
                ),
                depth: Depth::D8,
            },
        ),
        PixelFormat::Yuv420p => Some(
            FrameDescriptor {
                planes: PlaneLayout::YUV420(
                    [TextureFormat::R8Unorm, TextureFormat::R8Unorm, TextureFormat::R8Unorm],
                ),
                depth: Depth::D8,
            },
        ),
        PixelFormat::Yuv420p12le => Some(
            FrameDescriptor {
                planes: PlaneLayout::YUV420(
                    [TextureFormat::R16Unorm, TextureFormat::R16Unorm, TextureFormat::R16Unorm],
                ),
                depth: Depth::D12,
            },
        ),
        PixelFormat::P010le => Some(
            FrameDescriptor {
                planes: PlaneLayout::PackedYUV420(
                    [TextureFormat::R16Unorm, TextureFormat::Rg16Unorm],
                ),
                depth: Depth::D16,
            },
        ),
        PixelFormat::Yuv444p => Some(
            FrameDescriptor {
                planes: PlaneLayout::YUV444(
                    [TextureFormat::R8Unorm, TextureFormat::R8Unorm, TextureFormat::R8Unorm],
                ),
                depth: Depth::D8,
            },
        ),
        _ => None,
    }
}

/// The textures that frames of a pixel format are held in. P010 values fill their 16 bits from
/// the top, so they count as 16 bits deep and need no scaling.
pub fn av_pixel_texture_format(format: PixelFormat) -> (frame: Option<
    FrameDescriptor<TextureFormat>,
>)
    ensures
        frame == texture_format_of(format),
{
    match format {
        PixelFormat::Nv12 => Some(
            FrameDescriptor {
                planes: PlaneLayout::PackedYUV420(
                    [TextureFormat::R8Unorm, TextureFormat::Rg8Unorm],
                ),
                depth: Depth::D8,
            },
        ),
        PixelFormat::Yuv420p => Some(
            FrameDescriptor {
                planes: PlaneLayout::YUV420(
                    [TextureFormat::R8Unorm, TextureFormat::R8Unorm, TextureFormat::R8Unorm],
                ),
                depth: Depth::D8,
            },
        ),
        PixelFormat::Yuv420p12le => Some(
            FrameDescriptor {
                planes: PlaneLayout::YUV420(
                    [TextureFormat::R16Unorm, TextureFormat::R16Unorm, TextureFormat::R16Unorm],
                ),
                depth: Depth::D12,
            },
        ),
        PixelFormat::P010le => Some(
            FrameDescriptor {
                planes: PlaneLayout::PackedYUV420(
                    [TextureFormat::R16Unorm, TextureFormat::Rg16Unorm],
                ),
                depth: Depth::D16,
            },
        ),
        PixelFormat::Yuv444p => Some(
            FrameDescriptor {
                planes: PlaneLayout::YUV444(
                    [TextureFormat::R8Unorm, TextureFormat::R8Unorm, TextureFormat::R8Unorm],
                ),
                depth: Depth::D8,
            },
        ),
        _ => None,
    }
}

/// A texture to create: two-dimensional, one level, one sample.
#[derive(Debug, Clone, Copy, PartialEq, Eq, Structural)]
pub struct TextureSpec {
    pub width: u32,
    pub height: u32,
    pub format: TextureFormat,
}

/// The texture for a plane of a frame.
pub open spec fn plane_texture(
    format: TextureFormat,
    descriptor: PlaneDescriptor,
    width: u32,
    height: u32,
) -> TextureSpec {
    TextureSpec {
        width: width / descriptor.width_div,
        height: height / descriptor.height_div,
        format,
    }
}

fn create_texture(
    format: &TextureFormat,
    descriptor: PlaneDescriptor,
    width: u32,
    height: u32,
) -> (texture: TextureSpec)
    requires
        descriptor.width_div != 0,
        descriptor.height_div != 0,
    ensures
        texture == plane_texture(*format, descriptor, width, height),
{
    TextureSpec {
        width: width / descriptor.width_div,
        height: height / descriptor.height_div,
        format: *format,
    }
}

/// The textures to create for the planes of a frame of this size.
pub fn create_frame_textures(
    planes: &PlaneLayout<TextureFormat>,
    width: u32,
    height: u32,
) -> (textures: PlaneLayout<TextureSpec>)
    ensures
        layout_kind(textures) == layout_kind(*planes),
        plane_seq(textures) == Seq::new(
            plane_seq(*planes).len(),
            |i: int|
                plane_texture(plane_seq(*planes)[i], plane_descriptors(*planes)[i], width, height),
        ),
{
    let texture = |format: &TextureFormat, descriptor: PlaneDescriptor| -> (texture: TextureSpec)
        requires
            descriptor.width_div != 0 && descriptor.height_div != 0,
        ensures
            texture == plane_texture(*format, descriptor, width, height),
        { create_texture(format, descriptor, width, height) };
    planes.map(texture)
}

/// Mapping keeps the layout: whatever is made of the planes, the identity is the same.
pub proof fn law_mapping_keeps_the_identity<T, U>(before: PlaneLayout<T>, after: PlaneLayout<U>)
    requires
        layout_kind(after) == layout_kind(before),
    ensures
        after.identity() == before.identity(),
        after.identity().identity() == after.identity(),
        plane_descriptors(after) == plane_descriptors(before),
        plane_descriptors(after).len() == plane_seq(after).len(),
{
}

/// A plane's texture has as many channels as the plane interleaves, and channels of 16 bits
/// unless the frame is 8 bits deep.
pub proof fn law_textures_fit_their_planes(format: PixelFormat, plane: int)
    requires
        texture_format_of(format) is Some,
        0 <= plane < plane_seq(texture_format_of(format)->Some_0.planes).len(),
    ensures
        ({
            let frame = texture_format_of(format)->Some_0;
            let texture = plane_seq(frame.planes)[plane];
            &&& texture.channels() == plane_descriptors(frame.planes)[plane].channels
            &&& texture.bits() == (if frame.depth == Depth::D8 {
                8u32
            } else {
                16u32
            })
        }),
{
}

/// No plane's texture is larger than the frame, and the first is exactly as large.
pub proof fn law_planes_are_no_larger_than_the_frame(
    planes: PlaneLayout<TextureFormat>,
    width: u32,
    height: u32,
    plane: int,
)
    requires
        0 <= plane < plane_seq(planes).len(),
    ensures
        ({
            let texture = plane_texture(
                plane_seq(planes)[plane],
                plane_descriptors(planes)[plane],
                width,
                height,
            );
            &&& texture.width <= width
            &&& texture.height <= height
            &&& plane == 0 ==> texture.width == width && texture.height == height
        }),
{
    let descriptor = plane_descriptors(planes)[plane];
    assert(descriptor.width_div == 1 && descriptor.height_div == 1 || descriptor.width_div == 2
        && descriptor.height_div == 2);
    assert(width / 1 == width && height / 1 == height);
    assert(width / 2 <= width && height / 2 <= height);
}

/// The largest sample that frames of a format hold, as it lies in their planes: ten bits lie in the
/// upper part of sixteen, twelve in the lower.
pub open spec fn largest_sample(format: PixelFormat) -> nat {
    match format {
        PixelFormat::P010le => 0xffc0,
        PixelFormat::Yuv420p12le => 0xfff,
        _ => 0xff,
    }
}

/// The depth of a format says where its samples lie: 8 bits fill their channel, P010 fills its 16
/// from the top, and 12 bits lie in the lower part of 16. Its planes are interleaved exactly where
/// the format interleaves chroma.
pub proof fn law_formats_have_their_depth_and_layout(format: PixelFormat)
    ensures
        texture_format_of(format) is Some <==> format is Nv12 || format is Yuv420p
            || format is Yuv420p12le || format is P010le || format is Yuv444p,
        match texture_format_of(format) {
            Some(frame) => {
                &&& frame.depth == Depth::D8 <==> largest_sample(format) == 0xff
                &&& frame.depth == Depth::D12 <==> largest_sample(format) == 0xfff
                &&& frame.depth == Depth::D16 <==> largest_sample(format) == 0xffc0
                &&& frame.planes is PackedYUV420 <==> format is Nv12 || format is P010le
                &&& frame.planes is YUV420 <==> format is Yuv420p || format is Yuv420p12le
                &&& frame.planes is YUV444 <==> format is Yuv444p
                &&& plane_seq(frame.planes)[0].channels() == 1
                &&& plane_seq(frame.planes)[1].channels() == (if format is Nv12 || format is P010le {
                    2u32
                } else {
                    1u32
                })
            },
            None => true,
        },
{
}

/// In each plane of a texture format that is sampled, the largest sample of the frame fits: no
/// channel is narrower than the samples.
pub proof fn law_channels_hold_the_samples(format: PixelFormat, plane: int)
    requires
        texture_format_of(format) is Some,
        0 <= plane < plane_seq(texture_format_of(format)->Some_0.planes).len(),
    ensures
        ({
            let bits = plane_seq(texture_format_of(format)->Some_0.planes)[plane].bits();
            &&& bits == 8 ==> largest_sample(format) <= 0xff
            &&& bits == 16 ==> 0xff < largest_sample(format) <= 0xffff
            &&& bits == 8 || bits == 16
        }),
{
}

/// Luma has the size of the frame; chroma has half of it in both directions, rounded down, where it
/// is subsampled, and all of it where it is not. The format of a plane stays its own.
pub proof fn law_chroma_has_half_the_size_where_subsampled(
    planes: PlaneLayout<TextureFormat>,
    width: u32,
    height: u32,
    plane: int,
)
    requires
        0 <= plane < plane_seq(planes).len(),
    ensures
        ({
            let texture = plane_texture(
                plane_seq(planes)[plane],
                plane_descriptors(planes)[plane],
                width,
                height,
            );
            let subsampled = plane > 0 && (planes is PackedYUV420 || planes is YUV420);
            &&& texture.format == plane_seq(planes)[plane]
            &&& !subsampled ==> texture.width == width && texture.height == height
            &&& subsampled ==> 2 * texture.width <= width < 2 * texture.width + 2
            &&& subsampled ==> 2 * texture.height <= height < 2 * texture.height + 2
        }),
{
    let descriptor = plane_descriptors(planes)[plane];
    assert(descriptor.width_div == 1 && descriptor.height_div == 1 || descriptor.width_div == 2
        && descriptor.height_div == 2);
    assert(width / 1 == width && height / 1 == height);
}

/// Layouts have the same identity exactly where they are of one kind, and frames where they are of
/// one depth too. An identity has as many planes as the layout, and is of its kind.
pub proof fn law_identities_tell_layouts_apart<T, U>(a: FrameDescriptor<T>, b: FrameDescriptor<U>)
    ensures
        a.planes.identity() == b.planes.identity() <==> layout_kind(a.planes) == layout_kind(
            b.planes,
        ),
        a.identity() == b.identity() <==> layout_kind(a.planes) == layout_kind(b.planes) && a.depth
            == b.depth,
        layout_kind(a.identity().planes) == layout_kind(a.planes),
        a.identity().depth == a.depth,
        plane_seq(a.identity().planes).len() == plane_seq(a.planes).len(),
{
}

} // verus!
