//! Which pipeline draws which frames.
//!
//! A pipeline turns the planes of a frame into one RGB image. It depends on the frame's layout
//! and depth and on its colour space, and is built once for each combination that turns up.
use crate::context::layout::{
    largest_sample, layout_kind, plane_seq, texture_format_of, Depth, FrameDescriptor, PixelFormat,
    PlaneLayout,
};
use std::collections::BTreeMap;
use vstd::prelude::*;

verus! {

/// The colour space of ITU-R BT.709, as FFmpeg numbers colour spaces.
pub const BT709: i32 = 1;

/// The colour space of a stream that names none.
pub const UNSPECIFIED: i32 = 2;

/// The colour space of FCC Title 47.
pub const FCC: i32 = 4;

/// The colour space of ITU-R BT.601 in its 625-line form.
pub const BT470BG: i32 = 5;

/// The colour space of ITU-R BT.2020 with constant luminance.
pub const BT2020CL: i32 = 10;

/// The colour space that a frame is drawn in: one that names none is drawn as BT.709.
pub open spec fn drawn_as(color_space: i32) -> i32 {
    if color_space == UNSPECIFIED {
        BT709
    } else {
        color_space
    }
}

/// There is a conversion from this colour space to RGB.
pub open spec fn has_matrix(color_space: i32) -> bool {
    color_space == BT709 || color_space == FCC || color_space == BT470BG || color_space == BT2020CL
}

/// Whether there is a conversion from this colour space to RGB.
pub fn is_supported(color_space: i32) -> (supported: bool)
    ensures
        supported == has_matrix(color_space),
{
    color_space == BT709 || color_space == FCC || color_space == BT470BG || color_space == BT2020CL
}

/// The colour space that a frame is drawn in.
pub fn drawn_color_space(color_space: i32) -> (drawn: i32)
    ensures
        drawn == drawn_as(color_space),
{
    if color_space == UNSPECIFIED {
        BT709
    } else {
        color_space
    }
}

/// An entry of a conversion matrix.
#[derive(Debug, Clone, Copy, PartialEq, Eq, Structural)]
pub enum MatrixEntry {
    Zero,
    One,
    /// The value times 224 / (255 * 65536), which undoes the fixed point of the coefficients
    /// and the range of video chroma.
    Scaled(i32),
    /// Less the value times the same factor.
    Negated(i32),
}

/// The conversion from YUV to RGB, row by row.
pub open spec fn conversion(coefficients: Seq<i32>) -> Seq<MatrixEntry> {
    seq![
        MatrixEntry::One,
        MatrixEntry::Zero,
        MatrixEntry::Scaled(coefficients[0]),
        MatrixEntry::One,
        MatrixEntry::Negated(coefficients[2]),
        MatrixEntry::Negated(coefficients[3]),
        MatrixEntry::One,
        MatrixEntry::Scaled(coefficients[1]),
        MatrixEntry::Zero,
    ]
}

/// The conversion from YUV to RGB, row by row, out of the four coefficients of a colour space:
/// red from V, blue from U, and what green loses to U and to V.
pub fn yuv_to_rgb_matrix(color_space: i32, coefficients: &[i32; 4]) -> (matrix: [MatrixEntry; 9])
    requires
        has_matrix(color_space),
    ensures
        matrix@ == conversion(coefficients@),
{
    let matrix = [
        MatrixEntry::One,
        MatrixEntry::Zero,
        MatrixEntry::Scaled(coefficients[0]),
        MatrixEntry::One,
        MatrixEntry::Negated(coefficients[2]),
        MatrixEntry::Negated(coefficients[3]),
        MatrixEntry::One,
        MatrixEntry::Scaled(coefficients[1]),
        MatrixEntry::Zero,
    ];
    matrix
}

/// The shaders that there are.
#[derive(Debug, Clone, Copy, PartialEq, Eq, Structural)]
pub enum Shader {
    PackedYuv420,
    Yuv420,
}

/// There is a shader for frames of this layout.
pub open spec fn is_drawable<T>(planes: PlaneLayout<T>) -> bool {
    planes is PackedYUV420 || planes is YUV420
}

/// Whether there is a shader for frames of this layout.
pub fn can_draw<T>(planes: &PlaneLayout<T>) -> (drawable: bool)
    ensures
        drawable == is_drawable(*planes),
{
    match planes {
        PlaneLayout::PackedYUV420(_) => true,
        PlaneLayout::YUV420(_) => true,
        PlaneLayout::YUV444(_) => false,
        PlaneLayout::RGB(_) => false,
    }
}

/// What sampled values are multiplied by, as it stands in a shader, for the largest value of this
/// depth to become one: samples of 10 and 12 bits lie in the lower part of 16.
pub open spec fn scale_text(depth: Depth) -> Seq<char> {
    match depth {
        Depth::D8 => "1"@,
        Depth::D10 => "64"@,
        Depth::D12 => "16"@,
        Depth::D16 => "1"@,
    }
}

/// `text` with each occurrence of `from` replaced by `to`, looked for from left to right, each
/// after the end of the last.
pub open spec fn replaced(text: Seq<char>, from: Seq<char>, to: Seq<char>) -> Seq<char>
    decreases text.len(),
{
    if text.len() == 0 || from.len() == 0 {
        text
    } else if from.is_prefix_of(text) {
        to + replaced(text.skip(from.len() as int), from, to)
    } else {
        seq![text[0]] + replaced(text.skip(1), from, to)
    }
}

/// Calls `str::replace`, which replaces all matches of a pattern that do not overlap, from left
/// to right.
#[verifier::external_body]
fn replace_all(text: &str, from: &str, to: &str) -> (result: String)
    requires
        from@.len() > 0,
    ensures
        result@ == replaced(text@, from@, to@),
{
    text.replace(from, to)
}

/// The source of a shader: `template` with the nine entries of the conversion matrix, written
/// out in `matrix`, and with the scale of the depth.
pub fn shader_source(template: &str, matrix: &str, depth: Depth) -> (source: String)
    ensures
        source@ == replaced(
            replaced(template@, "$color_matrix"@, matrix@),
            "$scale"@,
            scale_text(depth),
        ),
{
    proof {
        reveal_strlit("$color_matrix");
        reveal_strlit("$scale");
    }
    let with_matrix = replace_all(template, "$color_matrix", matrix);
    let scale = match depth {
        Depth::D8 => "1",
        Depth::D10 => "64",
        Depth::D12 => "16",
        Depth::D16 => "1",
    };
    replace_all(with_matrix.as_str(), "$scale", scale)
}

/// A pipeline to build.
#[derive(Debug, Clone, Copy, PartialEq, Eq, Structural)]
pub struct PipelineSpec {
    /// How many textures the shader samples, bound from zero on.
    pub bindings: u32,
    /// The shader to start from.
    pub shader: Shader,
    /// The colour space to convert from.
    pub color_space: i32,
    /// How deep the sampled values are.
    pub depth: Depth,
}

/// The pipeline for frames of this layout and depth in this colour space.
pub open spec fn pipeline_spec(identity: FrameDescriptor<()>, color_space: i32) -> PipelineSpec {
    PipelineSpec {
        bindings: plane_seq(identity.planes).len() as u32,
        shader: if identity.planes is PackedYUV420 {
            Shader::PackedYuv420
        } else {
            Shader::Yuv420
        },
        color_space: drawn_as(color_space),
        depth: identity.depth,
    }
}

/// The number of a depth.
pub open spec fn depth_number(depth: Depth) -> nat {
    match depth {
        Depth::D8 => 0,
        Depth::D10 => 1,
        Depth::D12 => 2,
        Depth::D16 => 3,
    }
}

/// The number that a pipeline is found by.
pub open spec fn pipeline_key(identity: FrameDescriptor<()>, color_space: i32) -> u64 {
    ((layout_kind(identity.planes) * 4 + depth_number(identity.depth)) * 0x1_0000_0000 + (
    drawn_as(color_space) + 0x8000_0000)) as u64
}

/// Keys are below this number.
pub const KEY_LIMIT: u64 = 0x10_0000_0000;

fn key_of(identity: &FrameDescriptor<()>, color_space: i32) -> (key: u64)
    ensures
        key == pipeline_key(*identity, color_space),
        key < KEY_LIMIT,
{
    let layout: u64 = match identity.planes {
        PlaneLayout::PackedYUV420(_) => 0,
        PlaneLayout::YUV420(_) => 1,
        PlaneLayout::YUV444(_) => 2,
        PlaneLayout::RGB(_) => 3,
    };
    let depth: u64 = match identity.depth {
        Depth::D8 => 0,
        Depth::D10 => 1,
        Depth::D12 => 2,
        Depth::D16 => 3,
    };
    let color: i64 = drawn_color_space(color_space) as i64 + 0x8000_0000;
    (layout * 4 + depth) * 0x1_0000_0000 + color as u64
}

/// A pipeline of the cache.
#[derive(Debug, Clone, Copy, PartialEq, Eq, Structural)]
pub struct CachedPipeline {
    /// The place of the pipeline among those that were built, from zero on.
    pub index: u64,
    /// What to build at that place first, where the pipeline is new.
    pub build: Option<PipelineSpec>,
}

/// The pipelines that were built, by key, each with its place among them.
pub open spec fn looked_up(
    pipelines: Map<u64, u64>,
    identity: FrameDescriptor<()>,
    color_space: i32,
) -> (CachedPipeline, Map<u64, u64>) {
    let key = pipeline_key(identity, color_space);
    if pipelines.contains_key(key) {
        (CachedPipeline { index: pipelines[key], build: None }, pipelines)
    } else {
        let index = pipelines.len() as u64;
        (
            CachedPipeline { index, build: Some(pipeline_spec(identity, color_space)) },
            pipelines.insert(key, index),
        )
    }
}

/// Every pipeline has a place of its own among as many as there are.
pub open spec fn places_are_distinct(pipelines: Map<u64, u64>) -> bool {
    &&& pipelines.dom().finite()
    &&& forall|key: u64| #[trigger]
        pipelines.contains_key(key) ==> key < KEY_LIMIT && pipelines[key] < pipelines.len()
    &&& forall|a: u64, b: u64|
        #![trigger pipelines[a], pipelines[b]]
        pipelines.contains_key(a) && pipelines.contains_key(b) && a != b ==> pipelines[a]
            != pipelines[b]
}

/// There are no more pipelines than keys.
proof fn lemma_pipelines_are_few(pipelines: Map<u64, u64>)
    requires
        places_are_distinct(pipelines),
    ensures
        pipelines.len() <= KEY_LIMIT,
{
    let numbers = pipelines.dom().map(|key: u64| key as int);
    let range = vstd::set_lib::set_int_range(0, KEY_LIMIT as int);
    vstd::set_lib::lemma_int_range(0, KEY_LIMIT as int);
    assert(numbers.subset_of(range)) by {
        assert forall|n: int| numbers.contains(n) implies range.contains(n) by {
            let key = choose|key: u64| pipelines.dom().contains(key) && key as int == n;
            assert(pipelines.contains_key(key));
        }
    }
    vstd::set_lib::lemma_map_size(pipelines.dom(), numbers, |key: u64| key as int);
    vstd::set_lib::lemma_len_subset(numbers, range);
}

/// Which pipelines were built.
pub struct PipelineCache {
    pipelines: BTreeMap<u64, u64>,
    count: u64,
}

impl View for PipelineCache {
    type V = Map<u64, u64>;

    closed spec fn view(&self) -> Map<u64, u64> {
        self.pipelines@
    }
}

impl PipelineCache {
    /// Every pipeline has a place of its own.
    pub closed spec fn wf(&self) -> bool {
        &&& places_are_distinct(self@)
        &&& self.count == self@.len()
    }

    /// In a well-formed cache every pipeline has a place of its own.
    pub proof fn lemma_wf_places_are_distinct(&self)
        requires
            self.wf(),
        ensures
            places_are_distinct(self@),
    {
    }

    /// A cache without pipelines.
    pub fn new() -> (cache: PipelineCache)
        ensures
            cache.wf(),
            cache@ == Map::<u64, u64>::empty(),
    {
        PipelineCache { pipelines: BTreeMap::new(), count: 0 }
    }

    fn get_cached(&mut self, identity: &FrameDescriptor<()>, color_space: i32) -> (cached:
        CachedPipeline)
        requires
            old(self).wf(),
            is_drawable(identity.planes),
            has_matrix(drawn_as(color_space)),
        ensures
            final(self).wf(),
            (cached, final(self)@) == looked_up(old(self)@, *identity, color_space),
    {
        broadcast use vstd::std_specs::btree::group_btree_axioms;
        let key: u64 = key_of(identity, color_space);
        match self.pipelines.get(&key) {
            Some(index) => CachedPipeline { index: *index, build: None },
            None => {
                proof {
                    lemma_pipelines_are_few(self@);
                }
                let index: u64 = self.count;
                self.pipelines.insert(key, index);
                self.count = self.count + 1;
                let packed = match identity.planes {
                    PlaneLayout::PackedYUV420(_) => true,
                    _ => false,
                };
                let spec = PipelineSpec {
                    bindings: if packed {
                        2
                    } else {
                        3
                    },
                    shader: if packed {
                        Shader::PackedYuv420
                    } else {
                        Shader::Yuv420
                    },
                    color_space: drawn_color_space(color_space),
                    depth: identity.depth,
                };
                CachedPipeline { index, build: Some(spec) }
            },
        }
    }

    /// The pipeline for frames of this layout and depth in this colour space.
    pub fn get(&mut self, identity: &FrameDescriptor<()>, color_space: i32) -> (cached:
        CachedPipeline)
        requires
            old(self).wf(),
            is_drawable(identity.planes),
            has_matrix(drawn_as(color_space)),
        ensures
            final(self).wf(),
            (cached, final(self)@) == looked_up(old(self)@, *identity, color_space),
    {
        self.get_cached(identity, color_space)
    }

    /// The pipeline that these textures are bound for. Each plane is bound at its place in the
    /// layout; how many that are is returned too.
    pub fn bind_frame_textures<T>(
        &mut self,
        textures: &FrameDescriptor<T>,
        color_space: i32,
    ) -> (bound: (CachedPipeline, u32))
        requires
            old(self).wf(),
            is_drawable(textures.planes),
            has_matrix(drawn_as(color_space)),
        ensures
            final(self).wf(),
            (bound.0, final(self)@) == looked_up(old(self)@, textures.identity(), color_space),
            bound.1 == plane_seq(textures.planes).len(),
    {
        let cached = self.get_cached(&textures.as_identity(), color_space);
        let bindings: u32 = match &textures.planes {
            PlaneLayout::PackedYUV420(_) => 2,
            _ => 3,
        };
        (cached, bindings)
    }
}

/// Frames have the same pipeline exactly where they have the same layout and depth and are
/// drawn in the same colour space.
pub proof fn law_key_tells_pipelines_apart<T, U>(
    a: FrameDescriptor<T>,
    color_a: i32,
    b: FrameDescriptor<U>,
    color_b: i32,
)
    ensures
        pipeline_key(a.identity(), color_a) == pipeline_key(b.identity(), color_b) <==> (
        a.identity() == b.identity() && drawn_as(color_a) == drawn_as(color_b)),
{
}

/// A frame that names no colour space shares its pipeline with BT.709.
pub proof fn law_unspecified_is_drawn_as_bt709(identity: FrameDescriptor<()>)
    ensures
        pipeline_key(identity, UNSPECIFIED) == pipeline_key(identity, BT709),
        has_matrix(drawn_as(UNSPECIFIED)),
{
}

/// A pipeline is built once: the second look finds what the first one left, at the same place,
/// and nothing to build. No look moves a pipeline that was there before.
pub proof fn law_pipelines_are_built_once(
    pipelines: Map<u64, u64>,
    identity: FrameDescriptor<()>,
    color_space: i32,
    other: u64,
)
    ensures
        ({
            let (first, after) = looked_up(pipelines, identity, color_space);
            let (second, later) = looked_up(after, identity, color_space);
            &&& second.index == first.index
            &&& second.build is None
            &&& later == after
            &&& pipelines.contains_key(other) ==> after.contains_key(other) && after[other]
                == pipelines[other]
        }),
{
}

/// New pipelines are built at the next free place, so that places can index a list that only
/// grows; different pipelines never share one.
pub proof fn law_places_stay_distinct(
    pipelines: Map<u64, u64>,
    identity: FrameDescriptor<()>,
    color_space: i32,
)
    requires
        places_are_distinct(pipelines),
    ensures
        ({
            let (cached, after) = looked_up(pipelines, identity, color_space);
            &&& places_are_distinct(after)
            &&& cached.index < after.len()
            &&& cached.build is Some ==> cached.index == pipelines.len() && after.len()
                == pipelines.len() + 1
        }),
{
    lemma_pipelines_are_few(pipelines);
    let key = pipeline_key(identity, color_space);
    assert(key < KEY_LIMIT);
}

/// The number that a text of decimal digits stands for.
pub open spec fn decimal(text: Seq<char>) -> int
    decreases text.len(),
{
    if text.len() == 0 {
        0
    } else {
        10 * decimal(text.drop_last()) + (text.last() as u32 - '0' as u32)
    }
}

/// The scale of a depth takes 2 to its number of bits to 2 to the 16, where its samples lie in the
/// lower part of 16 bits, and is one where they fill their channel.
pub proof fn law_scales_stretch_samples_to_their_channel()
    ensures
        decimal(scale_text(Depth::D8)) == 1,
        decimal(scale_text(Depth::D10)) * 0x400 == 0x1_0000,
        decimal(scale_text(Depth::D12)) * 0x1000 == 0x1_0000,
        decimal(scale_text(Depth::D16)) == 1,
{
    reveal_strlit("1");
    reveal_strlit("16");
    reveal_strlit("64");
    reveal_with_fuel(decimal, 3);
    assert("1"@ =~= seq!['1']);
    assert("16"@ =~= seq!['1', '6']);
    assert("64"@ =~= seq!['6', '4']);
    assert(seq!['1'].drop_last() =~= Seq::<char>::empty());
    assert(seq!['1', '6'].drop_last() =~= seq!['1']);
    assert(seq!['6', '4'].drop_last() =~= seq!['6']);
    assert(seq!['6'].drop_last() =~= Seq::<char>::empty());
}

/// Whatever the format of a frame, the scale of its depth takes the largest sample to the top of
/// its channel: never past it, and never 64 steps of 16 bits below it.
pub proof fn law_scaled_samples_fill_their_channel(format: PixelFormat)
    requires
        texture_format_of(format) is Some,
    ensures
        ({
            let frame = texture_format_of(format)->Some_0;
            let top: int = if plane_seq(frame.planes)[0].bits() == 8 {
                0xff
            } else {
                0xffff
            };
            let scaled = decimal(scale_text(frame.depth)) * largest_sample(format);
            scaled <= top < scaled + 64
        }),
{
    law_scales_stretch_samples_to_their_channel();
    let frame = texture_format_of(format)->Some_0;
    let scale = decimal(scale_text(frame.depth));
    let largest = largest_sample(format) as int;
    assert(scale == 16 && largest == 0xfff || scale == 1);
    assert(scale == 16 ==> scale * largest == 16 * 0xfff) by (nonlinear_arith)
        requires
            scale == 16 && largest == 0xfff || scale == 1,
    ;
    assert(scale == 1 ==> scale * largest == largest) by (nonlinear_arith);
}

/// Only a stream that names no colour space is drawn in another one than its own, which is the
/// first; and there is a conversion for the colour spaces 1, 4, 5 and 10 alone.
pub proof fn law_colour_spaces_are_drawn_as_they_are(color_space: i32)
    ensures
        color_space == 2 ==> drawn_as(color_space) == 1,
        color_space != 2 ==> drawn_as(color_space) == color_space,
        has_matrix(color_space) <==> color_space == 1 || color_space == 4 || color_space == 5
            || color_space == 10,
        drawn_as(drawn_as(color_space)) == drawn_as(color_space),
{
}

/// A pipeline samples one texture for each plane, with the shader for that many, and keeps the depth
/// and the colour space that is drawn.
pub proof fn law_pipelines_sample_every_plane(identity: FrameDescriptor<()>, color_space: i32)
    requires
        is_drawable(identity.planes),
    ensures
        ({
            let spec = pipeline_spec(identity, color_space);
            &&& spec.bindings == plane_seq(identity.planes).len()
            &&& spec.bindings == 2 <==> spec.shader == Shader::PackedYuv420
            &&& spec.bindings == 3 <==> spec.shader == Shader::Yuv420
            &&& identity.planes is PackedYUV420 <==> spec.shader == Shader::PackedYuv420
            &&& spec.depth == identity.depth
            &&& spec.color_space == (if color_space == 2 {
                1
            } else {
                color_space
            })
        }),
{
}

/// There is a shader for subsampled layouts, and for no others.
pub proof fn law_subsampled_layouts_can_be_drawn<T>(planes: PlaneLayout<T>)
    ensures
        is_drawable(planes) <==> !(planes is YUV444) && !(planes is RGB),
{
}

/// The pattern occurs in the text at this place.
pub open spec fn occurs_at(text: Seq<char>, from: Seq<char>, i: int) -> bool {
    0 <= i && i + from.len() <= text.len() && text.subrange(i, i + from.len()) == from
}

/// A text in which the pattern does not occur is left as it is.
pub proof fn law_texts_without_the_pattern_stay(text: Seq<char>, from: Seq<char>, to: Seq<char>)
    requires
        from.len() > 0,
        forall|i: int| !occurs_at(text, from, i),
    ensures
        replaced(text, from, to) == text,
    decreases text.len(),
{
    if text.len() > 0 {
        if from.is_prefix_of(text) {
            assert(text.subrange(0, from.len() as int) =~= from);
            assert(occurs_at(text, from, 0));
        }
        let rest = text.skip(1);
        assert forall|i: int| !occurs_at(rest, from, i) by {
            if occurs_at(rest, from, i) {
                assert(text.subrange(i + 1, i + 1 + from.len()) =~= rest.subrange(
                    i,
                    i + from.len(),
                ));
                assert(occurs_at(text, from, i + 1));
            }
        }
        law_texts_without_the_pattern_stay(rest, from, to);
        assert(seq![text[0]] + rest =~= text);
    }
}

/// The first occurrence of the pattern is replaced, what stands before it stays, and the rest of the
/// text is dealt with in the same way.
pub proof fn law_first_occurrence_is_replaced(
    text: Seq<char>,
    from: Seq<char>,
    to: Seq<char>,
    first: int,
)
    requires
        from.len() > 0,
        occurs_at(text, from, first),
        forall|i: int| i < first ==> !occurs_at(text, from, i),
    ensures
        replaced(text, from, to) == text.take(first) + to + replaced(
            text.skip(first + from.len()),
            from,
            to,
        ),
    decreases text.len(),
{
    if first == 0 {
        assert(text.subrange(0, from.len() as int) =~= text.take(from.len() as int));
        assert(from.is_prefix_of(text));
        assert(text.take(0) + to =~= to);
    } else {
        if from.is_prefix_of(text) {
            assert(text.subrange(0, from.len() as int) =~= from);
            assert(occurs_at(text, from, 0));
        }
        let rest = text.skip(1);
        assert(rest.subrange(first - 1, first - 1 + from.len()) =~= text.subrange(
            first,
            first + from.len(),
        ));
        assert forall|i: int| i < first - 1 implies !occurs_at(rest, from, i) by {
            if occurs_at(rest, from, i) {
                assert(text.subrange(i + 1, i + 1 + from.len()) =~= rest.subrange(
                    i,
                    i + from.len(),
                ));
                assert(occurs_at(text, from, i + 1));
            }
        }
        law_first_occurrence_is_replaced(rest, from, to, first - 1);
        let tail = replaced(text.skip(first + from.len()), from, to);
        assert(rest.skip(first - 1 + from.len()) =~= text.skip(first + from.len()));
        assert(seq![text[0]] + (rest.take(first - 1) + to + tail) =~= text.take(first) + to
            + tail);
    }
}

/// What an entry of a matrix is worth, in units of the factor of its scaled entries, where one of
/// the others is worth `one`.
pub open spec fn worth(entry: MatrixEntry, one: int) -> int {
    match entry {
        MatrixEntry::Zero => 0,
        MatrixEntry::One => one,
        MatrixEntry::Scaled(value) => value as int,
        MatrixEntry::Negated(value) => -value,
    }
}

/// A conversion has nine entries. Red is luma and the first coefficient of V, blue is luma and the
/// second of U, and green is luma less the third of U and the fourth of V: without chroma, all
/// three are luma.
pub proof fn law_conversions_add_chroma_to_luma(
    coefficients: Seq<i32>,
    one: int,
    y: int,
    u: int,
    v: int,
)
    requires
        coefficients.len() == 4,
    ensures
        ({
            let m = conversion(coefficients);
            &&& m.len() == 9
            &&& worth(m[0], one) * y + worth(m[1], one) * u + worth(m[2], one) * v == one * y
                + coefficients[0] * v
            &&& worth(m[3], one) * y + worth(m[4], one) * u + worth(m[5], one) * v == one * y
                - coefficients[2] * u - coefficients[3] * v
            &&& worth(m[6], one) * y + worth(m[7], one) * u + worth(m[8], one) * v == one * y
                + coefficients[1] * u
        }),
{
    let c2 = coefficients[2];
    let c3 = coefficients[3];
    assert(0 * u == 0 && 0 * v == 0);
    assert((-c2) * u == -(c2 * u)) by (nonlinear_arith);
    assert((-c3) * v == -(c3 * v)) by (nonlinear_arith);
}

} // verus!
