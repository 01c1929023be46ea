//! Frames that are copied through the memory of the CPU.
use crate::context::layout::{
    av_pixel_texture_format, create_frame_textures, law_chroma_has_half_the_size_where_subsampled,
    layout_kind, plane_descriptors, plane_seq, plane_texture, texture_format_of, FrameDescriptor, PixelFormat, PlaneLayout, TextureFormat,
    TextureSpec,
};
use crate::context::pipeline_cache::is_drawable;
use crate::error::Error;
use vstd::prelude::*;

verus! {

/// The first of the formats that there are textures for, or that ends the list.
pub open spec fn transfer_format(formats: Seq<PixelFormat>) -> PixelFormat
    decreases formats.len(),
{
    if formats.len() == 0 {
        PixelFormat::Absent
    } else if formats[0] is Absent || texture_format_of(formats[0]) is Some {
        formats[0]
    } else {
        transfer_format(formats.drop_first())
    }
}

/// The first of the formats that there are textures for, or that ends the list.
pub fn pick_transfer_format(formats: &Vec<PixelFormat>) -> (format: PixelFormat)
    ensures
        format == transfer_format(formats@),
{
    let mut i: usize = 0;
    assert(formats@.skip(0) == formats@);
    while i < formats.len()
        invariant
            i <= formats@.len(),
            transfer_format(formats@.skip(i as int)) == transfer_format(formats@),
        decreases formats@.len() - i,
    {
        let format = formats[i];
        assert(formats@.skip(i as int)[0] == format);
        assert(formats@.skip(i as int).drop_first() == formats@.skip(i + 1));
        if format == PixelFormat::Absent || av_pixel_texture_format(format).is_some() {
            return format;
        }
        i = i + 1;
    }
    PixelFormat::Absent
}

/// The textures that frames are copied to.
pub struct SoftwareTexture {
    /// The format of the data that is copied.
    pub pixel_format: PixelFormat,
    pub formats: FrameDescriptor<TextureFormat>,
    pub textures: PlaneLayout<TextureSpec>,
}

/// The format of the data of a frame: its own, or the one that it is transferred to from
/// hardware.
pub open spec fn data_format(
    format: PixelFormat,
    in_hardware: bool,
    transfer_formats: Seq<PixelFormat>,
) -> PixelFormat {
    if in_hardware {
        transfer_format(transfer_formats)
    } else {
        format
    }
}

/// The bytes of a plane and where they go.
#[derive(Debug, Clone, Copy, PartialEq, Eq, Structural)]
pub struct PlaneUpload {
    /// How many bytes the plane holds.
    pub data_len: usize,
    /// How many bytes a row takes.
    pub bytes_per_row: u32,
    /// How wide the copy is.
    pub width: u32,
    /// How high the copy is.
    pub height: u32,
}

/// The copy of plane `plane` of a frame: the first plane has the size of the frame, the others
/// half of it in both directions.
pub open spec fn plane_upload(plane: int, stride: i32, width: i32, height: i32) -> PlaneUpload {
    if plane == 0 {
        PlaneUpload {
            data_len: (stride * height) as usize,
            bytes_per_row: stride as u32,
            width: width as u32,
            height: height as u32,
        }
    } else {
        PlaneUpload {
            data_len: (stride * height / 2) as usize,
            bytes_per_row: stride as u32,
            width: (width as u32) / 2,
            height: (height as u32) / 2,
        }
    }
}

fn full_plane(stride: i32, width: i32, height: i32) -> (upload: PlaneUpload)
    requires
        0 <= width,
        0 <= height,
        0 <= stride,
        stride * height <= i32::MAX,
    ensures
        upload == plane_upload(0, stride, width, height),
{
    assert(0 <= stride * height) by (nonlinear_arith)
        requires
            0 <= height,
            0 <= stride,
    ;
    PlaneUpload {
        data_len: (stride * height) as usize,
        bytes_per_row: stride as u32,
        width: width as u32,
        height: height as u32,
    }
}

fn half_plane(Ghost(plane): Ghost<int>, stride: i32, width: i32, height: i32) -> (upload:
    PlaneUpload)
    requires
        plane > 0,
        0 <= width,
        0 <= height,
        0 <= stride,
        stride * height <= i32::MAX,
    ensures
        upload == plane_upload(plane, stride, width, height),
{
    assert(0 <= stride * height) by (nonlinear_arith)
        requires
            0 <= height,
            0 <= stride,
    ;
    PlaneUpload {
        data_len: (stride * height / 2) as usize,
        bytes_per_row: stride as u32,
        width: width as u32 / 2,
        height: height as u32 / 2,
    }
}

/// Copies frames through the memory of the CPU.
pub struct SoftwareFrameAdapter {
    /// The textures, once there was a frame.
    pub texture: Option<SoftwareTexture>,
}

impl SoftwareFrameAdapter {
    /// The textures have the layout and the sizes of a frame of this size.
    pub open spec fn fits(&self, width: i32, height: i32) -> bool {
        self.texture matches Some(texture) ==> {
            &&& texture_format_of(texture.pixel_format) == Some(texture.formats)
            &&& is_drawable(texture.formats.planes)
            &&& layout_kind(texture.textures) == layout_kind(texture.formats.planes)
            &&& forall|i: int|
                0 <= i < plane_seq(texture.textures).len() ==> (#[trigger] plane_seq(
                    texture.textures,
                )[i]) == plane_texture(
                    plane_seq(texture.formats.planes)[i],
                    plane_descriptors(texture.formats.planes)[i],
                    width as u32,
                    height as u32,
                )
        }
    }

    /// An adapter without textures.
    pub fn new() -> (adapter: SoftwareFrameAdapter)
        ensures
            adapter.texture is None,
    {
        SoftwareFrameAdapter { texture: None }
    }

    /// Whether frames of this format can be copied.
    pub fn supports_format(format: PixelFormat) -> (supported: bool)
        ensures
            supported == (texture_format_of(format) is Some),
    {
        av_pixel_texture_format(format).is_some()
    }

    /// Plans the textures for a frame, where there are none yet. Returns whether they have to
    /// be made. `transfer_formats` are the formats that a frame in hardware can be transferred
    /// to.
    pub fn prepare(
        &mut self,
        format: PixelFormat,
        in_hardware: bool,
        transfer_formats: &Vec<PixelFormat>,
        width: i32,
        height: i32,
    ) -> (result: Result<bool, Error>)
        requires
            0 <= width,
            0 <= height,
            old(self).texture is None ==> match texture_format_of(
                data_format(format, in_hardware, transfer_formats@),
            ) {
                Some(formats) => is_drawable(formats.planes),
                None => true,
            },
        ensures
            old(self).texture is Some ==> result == Ok::<bool, Error>(false) && *final(self)
                == *old(self),
            old(self).texture is None ==> {
                let data = data_format(format, in_hardware, transfer_formats@);
                match texture_format_of(data) {
                    Some(formats) => {
                        &&& result == Ok::<bool, Error>(true)
                        &&& final(self).texture matches Some(texture)
                        &&& texture.pixel_format == data
                        &&& texture.formats == formats
                        &&& final(self).fits(width, height)
                    },
                    None => {
                        &&& result == Err::<bool, Error>(Error::UnsupportedPixelFormat)
                        &&& *final(self) == *old(self)
                    },
                }
            },
    {
        if self.texture.is_some() {
            return Ok(false);
        }
        let pixel_format = if in_hardware {
            pick_transfer_format(transfer_formats)
        } else {
            format
        };
        match av_pixel_texture_format(pixel_format) {
            None => Err(Error::UnsupportedPixelFormat),
            Some(formats) => {
                let textures = create_frame_textures(&formats.planes, width as u32, height as u32);
                self.texture = Some(SoftwareTexture { pixel_format, formats, textures });
                Ok(true)
            },
        }
    }

    /// Whether a frame in hardware has to be transferred, after mapping it gave `code`.
    pub fn needs_transfer(code: i32) -> (transfer: bool)
        ensures
            transfer == (code != 0),
    {
        code != 0
    }

    /// What comes of a transfer that gave `code`.
    pub fn transferred(code: i32) -> (result: Result<(), Error>)
        ensures
            result == (if code == 0 {
                Ok::<(), Error>(())
            } else {
                Err(Error::UnsupportedPixelFormat)
            }),
    {
        if code != 0 {
            return Err(Error::UnsupportedPixelFormat);
        }
        Ok(())
    }

    /// The copies to make of a frame whose planes have these strides. The textures stay the same
    /// from the first frame on: a smaller one is copied to their beginning.
    pub fn import_frame(&self, strides: &[i32; 3], width: i32, height: i32) -> (uploads: Vec<
        PlaneUpload,
    >)
        requires
            self.texture matches Some(texture) ==> is_drawable(texture.textures),
            0 <= width,
            0 <= height,
            self.texture matches Some(texture) ==> forall|i: int|
                0 <= i < plane_seq(texture.textures).len() ==> 0 <= #[trigger] strides[i] && strides[i]
                    * height <= i32::MAX,
        ensures
            match self.texture {
                None => uploads@.len() == 0,
                Some(texture) => {
                    &&& uploads@.len() == plane_seq(texture.textures).len()
                    &&& forall|i: int|
                        0 <= i < uploads@.len() ==> (#[trigger] uploads@[i]) == plane_upload(
                            i,
                            strides[i],
                            width,
                            height,
                        )
                },
            },
    {
        let mut uploads: Vec<PlaneUpload> = Vec::new();
        if let Some(texture) = &self.texture {
            assert(plane_seq(texture.textures).len() >= 2);
            assert(0 <= strides[0] && strides[0] * height <= i32::MAX);
            assert(0 <= strides[1] && strides[1] * height <= i32::MAX);
            uploads.push(full_plane(strides[0], width, height));
            uploads.push(half_plane(Ghost(1), strides[1], width, height));
            match &texture.textures {
                PlaneLayout::YUV420(_) => {
                    assert(0 <= strides[2] && strides[2] * height <= i32::MAX);
                    uploads.push(half_plane(Ghost(2), strides[2], width, height));
                },
                _ => {},
            }
        }
        uploads
    }

    /// The layout of the textures.
    pub fn layout_identity(&self) -> (identity: Option<FrameDescriptor<()>>)
        ensures
            identity == (match self.texture {
                Some(texture) => Some(texture.formats.identity()),
                None => None,
            }),
    {
        match &self.texture {
            Some(texture) => Some(texture.formats.as_identity()),
            None => None,
        }
    }
}

/// Every plane is copied to the whole of its texture.
pub proof fn law_copies_fill_the_textures(
    adapter: SoftwareFrameAdapter,
    plane: int,
    stride: i32,
    width: i32,
    height: i32,
)
    requires
        adapter.fits(width, height),
        0 <= width,
        0 <= height,
        adapter.texture is Some,
        0 <= plane < plane_seq(adapter.texture->Some_0.textures).len(),
    ensures
        ({
            let texture = plane_seq(adapter.texture->Some_0.textures)[plane];
            let upload = plane_upload(plane, stride, width, height);
            upload.width == texture.width && upload.height == texture.height
        }),
{
    assert(width as u32 / 1 == width);
    assert(height as u32 / 1 == height);
}

/// A frame that is already in memory is copied in its own format; one in hardware in the first
/// format that can be both transferred and shown.
pub proof fn law_transfer_format_is_shown_or_absent(formats: Seq<PixelFormat>)
    ensures
        transfer_format(formats) is Absent || formats.contains(transfer_format(formats)),
        transfer_format(formats) is Absent || texture_format_of(transfer_format(formats)) is Some,
    decreases formats.len(),
{
    if formats.len() > 0 && !(formats[0] is Absent || texture_format_of(formats[0]) is Some) {
        law_transfer_format_is_shown_or_absent(formats.drop_first());
        let chosen = transfer_format(formats.drop_first());
        if formats.drop_first().contains(chosen) {
            let i = choose|i: int|
                0 <= i < formats.drop_first().len() && formats.drop_first()[i] == chosen;
            assert(formats[i + 1] == chosen);
        }
    } else if formats.len() > 0 {
        assert(formats[0] == transfer_format(formats));
    }
}

/// The format to transfer to stands in the list before any other that could be shown and before the
/// list's end; where there is none, no format is chosen.
pub proof fn law_first_format_that_can_be_shown_is_chosen(formats: Seq<PixelFormat>, i: int)
    requires
        0 <= i <= formats.len(),
        forall|j: int|
            0 <= j < i ==> !(#[trigger] formats[j] is Absent) && texture_format_of(formats[j])
                is None,
    ensures
        i < formats.len() && texture_format_of(formats[i]) is Some ==> transfer_format(formats)
            == formats[i],
        i < formats.len() && formats[i] is Absent ==> transfer_format(formats) is Absent,
        i == formats.len() ==> transfer_format(formats) is Absent,
    decreases i,
{
    if i > 0 {
        let rest = formats.drop_first();
        assert(!(formats[0] is Absent) && texture_format_of(formats[0]) is None);
        assert forall|j: int| 0 <= j < i - 1 implies !(#[trigger] rest[j] is Absent)
            && texture_format_of(rest[j]) is None by {
            assert(rest[j] == formats[j + 1]);
        }
        law_first_format_that_can_be_shown_is_chosen(rest, i - 1);
        if i < formats.len() {
            assert(rest[i - 1] == formats[i]);
        }
    }
}

/// A frame in memory is copied in its own format, whatever it could be transferred to; one in
/// hardware is copied in what it is transferred to, whatever its own format is.
pub proof fn law_frames_in_memory_keep_their_format(
    format: PixelFormat,
    other: PixelFormat,
    transfer_formats: Seq<PixelFormat>,
)
    ensures
        data_format(format, false, transfer_formats) == format,
        data_format(format, true, transfer_formats) == data_format(other, true, transfer_formats),
        data_format(format, true, transfer_formats) == transfer_format(transfer_formats),
{
}

/// Luma is copied whole, row by row of its stride; chroma in half the size in both directions,
/// rounded down, with half as many rows of data. The data holds every row that is copied.
pub proof fn law_copies_hold_their_rows(plane: int, stride: i32, width: i32, height: i32)
    requires
        0 <= width,
        0 <= height,
        0 <= stride,
        stride * height <= i32::MAX,
    ensures
        ({
            let upload = plane_upload(plane, stride, width, height);
            &&& upload.bytes_per_row == stride
            &&& plane == 0 ==> upload.width == width && upload.height == height
            &&& plane == 0 ==> upload.data_len == stride * height
            &&& plane != 0 ==> 2 * upload.width <= width < 2 * upload.width + 2
            &&& plane != 0 ==> 2 * upload.height <= height < 2 * upload.height + 2
            &&& plane != 0 ==> 2 * upload.data_len <= stride * height < 2 * upload.data_len + 2
            &&& upload.data_len >= upload.bytes_per_row * upload.height
        }),
{
    let upload = plane_upload(plane, stride, width, height);
    assert(0 <= stride * height) by (nonlinear_arith)
        requires
            0 <= height,
            0 <= stride,
    ;
    assert(stride * (height / 2) <= stride * height / 2) by (nonlinear_arith)
        requires
            0 <= stride,
            0 <= height,
    ;
    if plane == 0 {
        assert(upload.bytes_per_row * upload.height == stride * height);
    } else {
        assert(upload.height == height / 2);
        assert(upload.bytes_per_row * upload.height == stride * (height / 2));
    }
}

/// The textures that frames are copied to are those of the format of their data: plane for plane of
/// the same format, luma in the size of the frame, and chroma in half of it, rounded down.
pub proof fn law_textures_are_those_of_the_data(
    adapter: SoftwareFrameAdapter,
    width: i32,
    height: i32,
    plane: int,
)
    requires
        0 <= width,
        0 <= height,
        adapter.fits(width, height),
        adapter.texture is Some,
        0 <= plane < plane_seq(adapter.texture->Some_0.textures).len(),
    ensures
        ({
            let texture = adapter.texture->Some_0;
            let made = plane_seq(texture.textures)[plane];
            &&& texture_format_of(texture.pixel_format) == Some(texture.formats)
            &&& plane_seq(texture.textures).len() == plane_seq(texture.formats.planes).len()
            &&& made.format == plane_seq(texture.formats.planes)[plane]
            &&& plane == 0 ==> made.width == width && made.height == height
            &&& plane > 0 ==> 2 * made.width <= width < 2 * made.width + 2
            &&& plane > 0 ==> 2 * made.height <= height < 2 * made.height + 2
        }),
{
    let texture = adapter.texture->Some_0;
    assert(plane_seq(texture.textures)[plane] == plane_texture(
        plane_seq(texture.formats.planes)[plane],
        plane_descriptors(texture.formats.planes)[plane],
        width as u32,
        height as u32,
    ));
    law_chroma_has_half_the_size_where_subsampled(
        texture.formats.planes,
        width as u32,
        height as u32,
        plane,
    );
}

} // verus!
