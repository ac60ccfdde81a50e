//! Encoded data streams of a scene.

use crate::color::{scaled_alpha, Color, DynamicColor};
use crate::coverage_mask::CoverageMask;
use crate::draw::{
    tag_sizes, BlendMode, DrawBeginClip, DrawBlurRoundedRect, DrawColor, DrawImage, DrawLinearGradient, DrawRadialGradient,
    DrawSweepGradient, DrawTag,
};
use crate::filter::{FilterPrimitive, LayerFilterEffect};
use crate::float::{equal, float_eq, same_number, ONE_BITS};
use crate::image::{pack_sampling, pack_size, packed_sampling, packed_size, Extend, ImageData, ImageSampler};
use crate::path::{PathStreams, PathTag, Style, Transform};
use vstd::prelude::*;

verus! {

/// A half-open range of indices.
#[derive(Clone, Copy, Debug, Default, PartialEq, Eq, Structural)]
pub struct IndexRange {
    pub start: usize,
    pub end: usize,
}

impl IndexRange {
    /// The range moved up by `base`.
    pub open spec fn moved(self, base: int) -> IndexRange {
        IndexRange { start: (self.start + base) as usize, end: (self.end + base) as usize }
    }

    /// Both ends can be moved up by `base`.
    pub open spec fn can_move(self, base: int) -> bool {
        self.start + base <= usize::MAX && self.end + base <= usize::MAX
    }
}

/// Color at an offset along a gradient.
#[derive(Clone, Copy, Debug)]
pub struct ColorStop {
    /// Normalized offset of the stop, the bit pattern of a 32-bit float.
    pub offset: u32,
    /// Color at the offset.
    pub color: DynamicColor,
}

/// Positioned glyph.
#[derive(Clone, Copy, Debug, Default, PartialEq, Eq, Structural)]
pub struct Glyph {
    /// Glyph identifier.
    pub id: u32,
    /// X-offset in run, relative to transform, the bit pattern of a 32-bit float.
    pub x: u32,
    /// Y-offset in run, relative to transform, the bit pattern of a 32-bit float.
    pub y: u32,
}

/// Normalized coordinate of a variable font, in 2.14 fixed point.
pub type NormalizedCoord = i16;

/// Snapshot of offsets for encoded streams.
#[derive(Clone, Copy, Debug, Default, PartialEq, Eq, Structural)]
pub struct StreamOffsets {
    /// Current length of path tag stream.
    pub path_tags: usize,
    /// Current length of path data stream.
    pub path_data: usize,
    /// Current length of draw tag stream.
    pub draw_tags: usize,
    /// Current length of draw data stream.
    pub draw_data: usize,
    /// Current length of transform stream.
    pub transforms: usize,
    /// Current length of style stream.
    pub styles: usize,
}

impl StreamOffsets {
    /// The sum of two snapshots can be counted.
    pub open spec fn can_add(self, other: StreamOffsets) -> bool {
        &&& self.path_tags + other.path_tags <= usize::MAX
        &&& self.path_data + other.path_data <= usize::MAX
        &&& self.draw_tags + other.draw_tags <= usize::MAX
        &&& self.draw_data + other.draw_data <= usize::MAX
        &&& self.transforms + other.transforms <= usize::MAX
        &&& self.styles + other.styles <= usize::MAX
    }

    /// The sum of two snapshots.
    pub open spec fn sum(self, other: StreamOffsets) -> StreamOffsets {
        StreamOffsets {
            path_tags: (self.path_tags + other.path_tags) as usize,
            path_data: (self.path_data + other.path_data) as usize,
            draw_tags: (self.draw_tags + other.draw_tags) as usize,
            draw_data: (self.draw_data + other.draw_data) as usize,
            transforms: (self.transforms + other.transforms) as usize,
            styles: (self.styles + other.styles) as usize,
        }
    }

    /// Adds `other` to each offset.
    pub fn add(&mut self, other: &Self)
        requires
            old(self).can_add(*other),
        ensures
            *final(self) == old(self).sum(*other),
    {
        self.path_tags = self.path_tags + other.path_tags;
        self.path_data = self.path_data + other.path_data;
        self.draw_tags = self.draw_tags + other.draw_tags;
        self.draw_data = self.draw_data + other.draw_data;
        self.transforms = self.transforms + other.transforms;
        self.styles = self.styles + other.styles;
    }
}

/// A sequence of glyphs that share a font and a transform.
#[derive(Clone, Copy, Debug, Default, PartialEq, Eq, Structural)]
pub struct GlyphRun {
    /// Identity of the font and its settings.
    pub font: u64,
    /// Global run transform.
    pub transform: Transform,
    /// Range of normalized coordinates of the font.
    pub normalized_coords: IndexRange,
    /// Range of glyphs.
    pub glyphs: IndexRange,
    /// Stream offsets at which the run is inserted.
    pub stream_offsets: StreamOffsets,
}

/// Draw data patch for a late bound resource.
#[derive(Clone, Copy, Debug, PartialEq, Eq, Structural)]
pub enum Patch {
    /// Gradient ramp resource.
    Ramp {
        /// Word of the draw data that receives the ramp index.
        draw_data_offset: usize,
        /// Range of the gradient stops.
        stops: IndexRange,
        /// Extend mode for the gradient.
        extend: Extend,
    },
    /// Glyph run resource.
    GlyphRun {
        /// Index in the glyph run buffer.
        index: usize,
    },
    /// Image resource.
    Image {
        /// The image.
        image: ImageData,
        /// Word of the draw data that receives the atlas coordinates.
        draw_data_offset: usize,
    },
}

/// Where the streams of an encoding start in another one that it is appended to.
pub struct Bases {
    pub offsets: StreamOffsets,
    pub stops: int,
    pub glyph_runs: int,
    pub glyphs: int,
    pub coords: int,
}

impl GlyphRun {
    /// The run after its encoding has been appended at `bases`.
    pub open spec fn rebased(self, bases: Bases) -> GlyphRun {
        GlyphRun {
            glyphs: self.glyphs.moved(bases.glyphs),
            normalized_coords: self.normalized_coords.moved(bases.coords),
            stream_offsets: self.stream_offsets.sum(bases.offsets),
            ..self
        }
    }

    /// The run can be rebased without overflow.
    pub open spec fn can_rebase(self, bases: Bases) -> bool {
        &&& self.glyphs.can_move(bases.glyphs)
        &&& self.normalized_coords.can_move(bases.coords)
        &&& self.stream_offsets.can_add(bases.offsets)
    }
}

impl Patch {
    /// The patch after its encoding has been appended at `bases`.
    pub open spec fn rebased(self, bases: Bases) -> Patch {
        match self {
            Patch::Ramp { draw_data_offset, stops, extend } => Patch::Ramp {
                draw_data_offset: (draw_data_offset + bases.offsets.draw_data) as usize,
                stops: stops.moved(bases.stops),
                extend,
            },
            Patch::GlyphRun { index } => Patch::GlyphRun { index: (index + bases.glyph_runs) as usize },
            Patch::Image { image, draw_data_offset } => Patch::Image {
                image,
                draw_data_offset: (draw_data_offset + bases.offsets.draw_data) as usize,
            },
        }
    }

    /// The patch can be rebased without overflow.
    pub open spec fn can_rebase(self, bases: Bases) -> bool {
        match self {
            Patch::Ramp { draw_data_offset, stops, extend } => draw_data_offset + bases.offsets.draw_data <= usize::MAX
                && stops.can_move(bases.stops),
            Patch::GlyphRun { index } => index + bases.glyph_runs <= usize::MAX,
            Patch::Image { image, draw_data_offset } => draw_data_offset + bases.offsets.draw_data <= usize::MAX,
        }
    }
}

/// Encoded data for late bound resources.
#[derive(Debug, Default)]
pub struct Resources {
    /// Draw data patches for late bound resources.
    pub patches: Vec<Patch>,
    /// Color stop collection for gradients.
    pub color_stops: Vec<ColorStop>,
    /// Positioned glyph buffer.
    pub glyphs: Vec<Glyph>,
    /// Sequences of glyphs.
    pub glyph_runs: Vec<GlyphRun>,
    /// Normalized coordinate buffer for variable fonts.
    pub normalized_coords: Vec<NormalizedCoord>,
}

impl Clone for Resources {
    fn clone(&self) -> (r: Self)
        ensures
            r.same_as(*self),
    {
        Resources {
            patches: copied(&self.patches),
            color_stops: copied(&self.color_stops),
            glyphs: copied(&self.glyphs),
            glyph_runs: copied(&self.glyph_runs),
            normalized_coords: copied(&self.normalized_coords),
        }
    }
}

impl Resources {
    /// The same resources in the same order.
    pub open spec fn same_as(self, other: Resources) -> bool {
        &&& self.patches@ == other.patches@
        &&& self.color_stops@ == other.color_stops@
        &&& self.glyphs@ == other.glyphs@
        &&& self.glyph_runs@ == other.glyph_runs@
        &&& self.normalized_coords@ == other.normalized_coords@
    }

    /// There are no resources.
    pub open spec fn is_empty(self) -> bool {
        &&& self.patches@.len() == 0
        &&& self.color_stops@.len() == 0
        &&& self.glyphs@.len() == 0
        &&& self.glyph_runs@.len() == 0
        &&& self.normalized_coords@.len() == 0
    }

    /// Removes all resources.
    pub fn reset(&mut self)
        ensures
            final(self).is_empty(),
    {
        self.patches.clear();
        self.color_stops.clear();
        self.glyphs.clear();
        self.glyph_runs.clear();
        self.normalized_coords.clear();
    }
}

/// An open clip: its draw data, and the word of the draw data that receives the index of
/// the layer's filter when the clip ends.
#[derive(Clone, Copy, Debug, PartialEq, Eq, Structural)]
pub struct OpenClip {
    pub parameters: DrawBeginClip,
    pub layer_idx_slot: usize,
}

/// Encoded data streams for a scene.
///
/// # Invariants
///
/// * At least one transform and style must be encoded before any path data
///   or draw object.
#[derive(Debug, Default)]
pub struct Encoding {
    /// The path tag stream.
    pub path_tags: Vec<PathTag>,
    /// The path data stream.
    /// Stores all coordinates on paths.
    /// Stored as `u32` as all comparisons are performed bitwise.
    pub path_data: Vec<u32>,
    /// The draw tag stream.
    pub draw_tags: Vec<DrawTag>,
    /// The draw data stream.
    pub draw_data: Vec<u32>,
    /// The transform stream.
    pub transforms: Vec<Transform>,
    /// The style stream
    pub styles: Vec<Style>,
    /// Late bound resource data.
    pub resources: Resources,
    /// Number of encoded paths.
    pub n_paths: u32,
    /// Number of encoded path segments.
    pub n_path_segments: u32,
    /// Number of encoded clips/layers.
    pub n_clips: u32,
    /// Number of unclosed clips/layers.
    pub n_open_clips: u32,
    /// Flags that capture the current state of the encoding.
    pub flags: u32,
    /// Optional full-frame mask sampled during fine rasterization (must match render size).
    pub coverage_mask: Option<CoverageMask>,
    /// If set, the next [`Self::encode_begin_clip`] associates this filter with that layer.
    pub pending_layer_filter: Option<FilterPrimitive>,
    /// Stack parallel to open clips: `Some` when the matching clip began with a pending filter.
    pub clip_filter_stack: Vec<Option<FilterPrimitive>>,
    /// Parallel to open clips.
    pub begin_clip_stack: Vec<OpenClip>,
    /// Filters recorded when a filtered layer ends (`encode_end_clip`).
    ///
    /// Applied after fine: each entry is filtered in isolation, then composited back.
    pub layer_filter_effects: Vec<LayerFilterEffect>,
}

/// Words of draw data that a sequence of tags calls for.
pub open spec fn scene_words(tags: Seq<DrawTag>) -> nat
    decreases tags.len(),
{
    if tags.len() == 0 {
        0
    } else {
        scene_words(tags.drop_last()) + tags.last().scene_size() as nat
    }
}

/// Clip operations in a sequence of tags.
pub open spec fn clip_operations(tags: Seq<DrawTag>) -> nat
    decreases tags.len(),
{
    if tags.len() == 0 {
        0
    } else {
        clip_operations(tags.drop_last()) + tags.last().clip_size() as nat
    }
}

proof fn lemma_push_tag(tags: Seq<DrawTag>, tag: DrawTag)
    ensures
        scene_words(tags.push(tag)) == scene_words(tags) + tag.scene_size(),
        clip_operations(tags.push(tag)) == clip_operations(tags) + tag.clip_size(),
{
    assert(tags.push(tag).drop_last() =~= tags);
}

proof fn lemma_join_tags(a: Seq<DrawTag>, b: Seq<DrawTag>)
    ensures
        scene_words(a + b) == scene_words(a) + scene_words(b),
        clip_operations(a + b) == clip_operations(a) + clip_operations(b),
    decreases b.len(),
{
    if b.len() == 0 {
        assert(a + b =~= a);
    } else {
        lemma_join_tags(a, b.drop_last());
        assert((a + b).drop_last() =~= a + b.drop_last());
    }
}

/// An open clip points at the draw data of its begin tag: the two words of its parameters,
/// followed by the word for the filter, which is still zero.
pub open spec fn points_at_begin(clip: OpenClip, draw_data: Seq<u32>) -> bool {
    &&& 2 <= clip.layer_idx_slot < draw_data.len()
    &&& draw_data[clip.layer_idx_slot - 2] == clip.parameters.blend_mode
    &&& draw_data[clip.layer_idx_slot - 1] == clip.parameters.alpha
    &&& draw_data[clip.layer_idx_slot as int] == 0
}

/// The draw data of the open clips do not overlap, and follow each other from the outermost in.
pub open spec fn nested_in_order(clips: Seq<OpenClip>) -> bool {
    forall|i: int, j: int|
        0 <= i < j < clips.len() ==> (#[trigger] clips[i]).layer_idx_slot + 3 <= (#[trigger] clips[j]).layer_idx_slot
}

fn append_all<T: Copy>(dst: &mut Vec<T>, src: &[T])
    ensures
        final(dst)@ == old(dst)@ + src@,
{
    let ghost start = dst@;
    let mut i: usize = 0;
    while i < src.len()
        invariant
            i <= src.len(),
            dst@ == start + src@.take(i as int),
        decreases src.len() - i,
    {
        dst.push(src[i]);
        assert(src@.take(i as int + 1) =~= src@.take(i as int).push(src@[i as int]));
        i = i + 1;
    }
    assert(src@.take(src@.len() as int) =~= src@);
}

fn copied<T: Copy>(src: &Vec<T>) -> (v: Vec<T>)
    ensures
        v@ == src@,
{
    let mut v: Vec<T> = Vec::new();
    append_all(&mut v, src.as_slice());
    assert(v@ =~= src@);
    v
}

impl Clone for Encoding {
    fn clone(&self) -> (e: Self)
        ensures
            e.same_as(*self),
            self.wf() ==> e.wf(),
    {
        let coverage_mask: Option<CoverageMask> = match &self.coverage_mask {
            Some(mask) => Some(mask.clone()),
            None => None,
        };
        Encoding {
            path_tags: copied(&self.path_tags),
            path_data: copied(&self.path_data),
            draw_tags: copied(&self.draw_tags),
            draw_data: copied(&self.draw_data),
            transforms: copied(&self.transforms),
            styles: copied(&self.styles),
            resources: self.resources.clone(),
            n_paths: self.n_paths,
            n_path_segments: self.n_path_segments,
            n_clips: self.n_clips,
            n_open_clips: self.n_open_clips,
            flags: self.flags,
            coverage_mask,
            pending_layer_filter: self.pending_layer_filter,
            clip_filter_stack: copied(&self.clip_filter_stack),
            begin_clip_stack: copied(&self.begin_clip_stack),
            layer_filter_effects: copied(&self.layer_filter_effects),
        }
    }
}

impl Encoding {
    /// The same streams, resources, counts and open clips.
    pub open spec fn same_as(self, other: Encoding) -> bool {
        &&& self.path_tags@ == other.path_tags@
        &&& self.path_data@ == other.path_data@
        &&& self.draw_tags@ == other.draw_tags@
        &&& self.draw_data@ == other.draw_data@
        &&& self.transforms@ == other.transforms@
        &&& self.styles@ == other.styles@
        &&& self.resources.same_as(other.resources)
        &&& self.n_paths == other.n_paths
        &&& self.n_path_segments == other.n_path_segments
        &&& self.n_clips == other.n_clips
        &&& self.n_open_clips == other.n_open_clips
        &&& self.flags == other.flags
        &&& self.coverage_mask == other.coverage_mask
        &&& self.pending_layer_filter == other.pending_layer_filter
        &&& self.clip_filter_stack@ == other.clip_filter_stack@
        &&& self.begin_clip_stack@ == other.begin_clip_stack@
        &&& self.layer_filter_effects@ == other.layer_filter_effects@
    }

    /// Forces encoding of the next transform even if it matches
    /// the current transform in the stream.
    pub const FORCE_NEXT_TRANSFORM: u32 = 1;

    /// Forces encoding of the next style even if it matches
    /// the current style in the stream.
    pub const FORCE_NEXT_STYLE: u32 = 2;

    /// The streams agree with each other: the draw data are what the draw tags call for, the
    /// clip operations have been counted, and the stacks of open clips run in parallel, each
    /// clip pointing at the draw data of its own begin tag.
    pub open spec fn wf(self) -> bool {
        &&& self.draw_data@.len() == scene_words(self.draw_tags@)
        &&& self.n_clips == clip_operations(self.draw_tags@)
        &&& self.clip_filter_stack@.len() == self.n_open_clips
        &&& self.begin_clip_stack@.len() == self.n_open_clips
        &&& forall|i: int|
            0 <= i < self.begin_clip_stack@.len() ==> points_at_begin(
                #[trigger] self.begin_clip_stack@[i],
                self.draw_data@,
            )
        &&& nested_in_order(self.begin_clip_stack@)
    }

    /// Nothing has been encoded.
    pub open spec fn is_clear(self) -> bool {
        &&& self.path_tags@.len() == 0
        &&& self.path_data@.len() == 0
        &&& self.draw_tags@.len() == 0
        &&& self.draw_data@.len() == 0
        &&& self.transforms@.len() == 0
        &&& self.styles@.len() == 0
        &&& self.resources.is_empty()
        &&& self.n_paths == 0
        &&& self.n_path_segments == 0
        &&& self.n_clips == 0
        &&& self.n_open_clips == 0
        &&& self.flags == 0
        &&& self.coverage_mask is None
        &&& self.pending_layer_filter is None
        &&& self.clip_filter_stack@.len() == 0
        &&& self.begin_clip_stack@.len() == 0
        &&& self.layer_filter_effects@.len() == 0
    }

    /// Creates a new encoding.
    pub fn new() -> (e: Self)
        ensures
            e.is_clear(),
            e.wf(),
    {
        Encoding {
            path_tags: Vec::new(),
            path_data: Vec::new(),
            draw_tags: Vec::new(),
            draw_data: Vec::new(),
            transforms: Vec::new(),
            styles: Vec::new(),
            resources: Resources {
                patches: Vec::new(),
                color_stops: Vec::new(),
                glyphs: Vec::new(),
                glyph_runs: Vec::new(),
                normalized_coords: Vec::new(),
            },
            n_paths: 0,
            n_path_segments: 0,
            n_clips: 0,
            n_open_clips: 0,
            flags: 0,
            coverage_mask: None,
            pending_layer_filter: None,
            clip_filter_stack: Vec::new(),
            begin_clip_stack: Vec::new(),
            layer_filter_effects: Vec::new(),
        }
    }

    /// Returns `true` if the encoding is empty.
    pub fn is_empty(&self) -> (b: bool)
        ensures
            b == (self.path_tags@.len() == 0),
    {
        self.path_tags.len() == 0
    }

    /// Clears the encoding.
    pub fn reset(&mut self)
        ensures
            final(self).is_clear(),
            final(self).wf(),
    {
        self.transforms.clear();
        self.path_tags.clear();
        self.path_data.clear();
        self.styles.clear();
        self.draw_data.clear();
        self.draw_tags.clear();
        self.n_paths = 0;
        self.n_path_segments = 0;
        self.n_clips = 0;
        self.n_open_clips = 0;
        self.flags = 0;
        self.coverage_mask = None;
        self.pending_layer_filter = None;
        self.clip_filter_stack.clear();
        self.begin_clip_stack.clear();
        self.layer_filter_effects.clear();
        self.resources.reset();
    }

    /// The lengths of the streams.
    pub open spec fn offsets(self) -> StreamOffsets {
        StreamOffsets {
            path_tags: self.path_tags.len(),
            path_data: self.path_data.len(),
            draw_tags: self.draw_tags.len(),
            draw_data: self.draw_data.len(),
            transforms: self.transforms.len(),
            styles: self.styles.len(),
        }
    }

    /// Returns a snapshot of the current stream offsets.
    pub fn stream_offsets(&self) -> (o: StreamOffsets)
        ensures
            o == self.offsets(),
    {
        StreamOffsets {
            path_tags: self.path_tags.len(),
            path_data: self.path_data.len(),
            draw_tags: self.draw_tags.len(),
            draw_data: self.draw_data.len(),
            transforms: self.transforms.len(),
            styles: self.styles.len(),
        }
    }

    /// Whether the style is new to the stream.
    pub open spec fn needs_style(self, style: Style) -> bool {
        ||| self.flags & Self::FORCE_NEXT_STYLE != 0
        ||| self.styles@.len() == 0
        ||| !self.styles@.last().same_style(style)
    }

    /// `next` is `self` after a style has been encoded.
    pub open spec fn style_encoded(self, next: Encoding, style: Style) -> bool {
        if self.needs_style(style) {
            &&& next == (Encoding { path_tags: next.path_tags, styles: next.styles, flags: next.flags, ..self })
            &&& next.path_tags@ == self.path_tags@.push(PathTag(PathTag::STYLE))
            &&& next.styles@ == self.styles@.push(style)
            &&& next.flags == self.flags & !Self::FORCE_NEXT_STYLE
        } else {
            next == self
        }
    }

    /// Encodes a style, unless it repeats the current one.
    pub fn encode_style(&mut self, style: Style)
        ensures
            old(self).style_encoded(*final(self), style),
            old(self).wf() ==> final(self).wf(),
    {
        let n: usize = self.styles.len();
        if self.flags & Self::FORCE_NEXT_STYLE != 0 || n == 0 || !self.styles[n - 1].same(&style) {
            self.path_tags.push(PathTag(PathTag::STYLE));
            self.styles.push(style);
            self.flags = self.flags & !Self::FORCE_NEXT_STYLE;
        }
    }

    /// Encodes a fill style.
    pub fn encode_fill_style(&mut self, style: Style)
        ensures
            old(self).style_encoded(*final(self), style),
            old(self).wf() ==> final(self).wf(),
    {
        self.encode_style(style);
    }

    /// Encodes a stroke style; `style` is `None` for a stroke of zero width.
    ///
    /// Returns false if the stroke had zero width and so couldn't be encoded.
    pub fn encode_stroke_style(&mut self, style: Option<Style>) -> (b: bool)
        ensures
            b == style.is_some(),
            style matches Some(s) ==> old(self).style_encoded(*final(self), s),
            style is None ==> *final(self) == *old(self),
            old(self).wf() ==> final(self).wf(),
    {
        match style {
            Some(s) => {
                self.encode_style(s);
                true
            },
            None => false,
        }
    }

    /// Whether the transform is new to the stream.
    pub open spec fn needs_transform(self, transform: Transform) -> bool {
        ||| self.flags & Self::FORCE_NEXT_TRANSFORM != 0
        ||| self.transforms@.len() == 0
        ||| !self.transforms@.last().same_transform(transform)
    }

    /// Encodes a transform.
    ///
    /// If the given transform is different from the current one, encodes it and
    /// returns true. Otherwise, encodes nothing and returns false.
    pub fn encode_transform(&mut self, transform: Transform) -> (b: bool)
        ensures
            b == old(self).needs_transform(transform),
            b ==> {
                &&& *final(self) == (Encoding {
                    path_tags: final(self).path_tags,
                    transforms: final(self).transforms,
                    flags: final(self).flags,
                    ..*old(self)
                })
                &&& final(self).path_tags@ == old(self).path_tags@.push(PathTag(PathTag::TRANSFORM))
                &&& final(self).transforms@ == old(self).transforms@.push(transform)
                &&& final(self).flags == old(self).flags & !Self::FORCE_NEXT_TRANSFORM
            },
            !b ==> *final(self) == *old(self),
            old(self).wf() ==> final(self).wf(),
            b ==> final(self).transforms@.len() == old(self).transforms@.len() + 1,
            b ==> final(self).transforms@.last() == transform && final(self).path_tags@.last().0 == 0x20,
            final(self).transforms@.len() > 0,
            transform.same_transform(transform) ==> final(self).transforms@.last().same_transform(transform)
                && !final(self).needs_transform(transform),
    {
        let n: usize = self.transforms.len();
        if self.flags & Self::FORCE_NEXT_TRANSFORM != 0 || n == 0 || !self.transforms[n - 1].same(&transform) {
            self.path_tags.push(PathTag(PathTag::TRANSFORM));
            self.transforms.push(transform);
            proof {
                let flags = self.flags;
                assert((flags & !1u32) & 1u32 == 0) by (bit_vector);
            }
            self.flags = self.flags & !Self::FORCE_NEXT_TRANSFORM;
            true
        } else {
            false
        }
    }

    /// Adds encoded paths to the streams.
    /// Returns `true` if a non-zero number of segments were encoded.
    pub fn encode_path(&mut self, path: &PathStreams) -> (b: bool)
        requires
            old(self).n_path_segments + path.n_segments <= u32::MAX,
            old(self).n_paths + path.n_paths <= u32::MAX,
        ensures
            b == (path.n_segments != 0),
            *final(self) == (Encoding {
                path_tags: final(self).path_tags,
                path_data: final(self).path_data,
                n_path_segments: (old(self).n_path_segments + path.n_segments) as u32,
                n_paths: (old(self).n_paths + path.n_paths) as u32,
                ..*old(self)
            }),
            final(self).path_tags@ == old(self).path_tags@ + path.tags@,
            final(self).path_data@ == old(self).path_data@ + path.data@,
            old(self).wf() ==> final(self).wf(),
            path.n_segments == 0 <==> !b,
            final(self).path_tags@.skip(old(self).path_tags@.len() as int) == path.tags@,
            final(self).path_data@.skip(old(self).path_data@.len() as int) == path.data@,
            final(self).n_paths - old(self).n_paths == path.n_paths,
            final(self).n_path_segments - old(self).n_path_segments == path.n_segments,
    {
        append_all(&mut self.path_tags, path.tags.as_slice());
        append_all(&mut self.path_data, path.data.as_slice());
        self.n_path_segments = self.n_path_segments + path.n_segments;
        self.n_paths = self.n_paths + path.n_paths;
        path.n_segments != 0
    }

    /// `next` is `self` with one more draw object: its tag and its draw data.
    pub open spec fn object_encoded(self, next: Encoding, tag: u32, words: Seq<u32>) -> bool {
        &&& next == (Encoding { draw_tags: next.draw_tags, draw_data: next.draw_data, ..self })
        &&& next.draw_tags@ == self.draw_tags@.push(DrawTag(tag))
        &&& next.draw_data@ == self.draw_data@ + words
    }

    proof fn lemma_data_grows(self, next: Encoding)
        requires
            self.wf(),
            next.begin_clip_stack@ == self.begin_clip_stack@,
            self.draw_data@.len() <= next.draw_data@.len(),
            forall|i: int| 0 <= i < self.draw_data@.len() ==> next.draw_data@[i] == #[trigger] self.draw_data@[i],
        ensures
            forall|i: int|
                0 <= i < next.begin_clip_stack@.len() ==> points_at_begin(
                    #[trigger] next.begin_clip_stack@[i],
                    next.draw_data@,
                ),
            nested_in_order(next.begin_clip_stack@),
    {
        assert forall|i: int| 0 <= i < next.begin_clip_stack@.len() implies points_at_begin(
            #[trigger] next.begin_clip_stack@[i],
            next.draw_data@,
        ) by {
            let c = self.begin_clip_stack@[i];
            assert(points_at_begin(c, self.draw_data@));
            let s = c.layer_idx_slot as int;
            assert(self.draw_data@[s] == next.draw_data@[s]);
            assert(self.draw_data@[s - 1] == next.draw_data@[s - 1]);
            assert(self.draw_data@[s - 2] == next.draw_data@[s - 2]);
        }
    }

    proof fn lemma_object_keeps_wf(self, next: Encoding, tag: u32, words: Seq<u32>)
        requires
            self.wf(),
            next.draw_tags@ == self.draw_tags@.push(DrawTag(tag)),
            next.draw_data@ == self.draw_data@ + words,
            next.begin_clip_stack@ == self.begin_clip_stack@,
            next.clip_filter_stack@ == self.clip_filter_stack@,
            next.n_clips == self.n_clips,
            next.n_open_clips == self.n_open_clips,
            DrawTag(tag).scene_size() == words.len(),
            DrawTag(tag).clip_size() == 0,
        ensures
            next.wf(),
    {
        lemma_push_tag(self.draw_tags@, DrawTag(tag));
        self.lemma_data_grows(next);
    }

    /// Encodes a solid color brush.
    pub fn encode_color(&mut self, color: DrawColor)
        ensures
            old(self).object_encoded(*final(self), DrawTag::COLOR, seq![color.rgba]),
            old(self).wf() ==> final(self).wf(),
            final(self).draw_tags@.last().0 == 0x44,
            final(self).draw_data@.last() == color.rgba,
            final(self).draw_data@.len() == old(self).draw_data@.len() + 1,
    {
        self.draw_tags.push(DrawTag(DrawTag::COLOR));
        self.draw_data.push(color.rgba);
        proof {
            assert(self.draw_data@ =~= old(self).draw_data@ + seq![color.rgba]);
            tag_sizes();
            if old(self).wf() {
                old(self).lemma_object_keeps_wf(*self, DrawTag::COLOR, seq![color.rgba]);
            }
        }
    }

    /// Sets the blend mode for subsequent per-draw compositing (non-isolated blending).
    ///
    /// This inserts a draw object into the stream; it does not draw geometry by itself.
    /// Call before fills/strokes that should use this mode. Default is normal source-over.
    ///
    /// Every draw tag must have a corresponding path, so the object comes with a path of
    /// its own.
    pub fn encode_set_blend_mode(&mut self, blend: BlendMode)
        requires
            old(self).n_paths < u32::MAX,
        ensures
            *final(self) == (Encoding {
                draw_tags: final(self).draw_tags,
                draw_data: final(self).draw_data,
                path_tags: final(self).path_tags,
                n_paths: (old(self).n_paths + 1) as u32,
                ..*old(self)
            }),
            final(self).draw_tags@ == old(self).draw_tags@.push(DrawTag(DrawTag::SET_BLEND_MODE)),
            final(self).draw_data@ == old(self).draw_data@.push(blend.packed()),
            final(self).path_tags@ == old(self).path_tags@.push(PathTag(PathTag::PATH)),
            old(self).wf() ==> final(self).wf(),
            final(self).draw_tags@.last().0 == 0x04,
            final(self).draw_data@.last() == 0x100 * blend.mix + blend.compose,
            final(self).path_tags@.last().0 == 0x10,
            final(self).n_paths == old(self).n_paths + 1,
    {
        self.draw_tags.push(DrawTag(DrawTag::SET_BLEND_MODE));
        self.draw_data.push(blend.to_u32());
        self.path_tags.push(PathTag(PathTag::PATH));
        self.n_paths = self.n_paths + 1;
        proof {
            let words = seq![blend.packed()];
            assert(self.draw_data@ =~= old(self).draw_data@ + words);
            tag_sizes();
            if old(self).wf() {
                old(self).lemma_object_keeps_wf(*self, DrawTag::SET_BLEND_MODE, words);
            }
        }
    }
}

/// `scaled` is `stop` with its alpha multiplied by `alpha`, which changes nothing where
/// `alpha` is 1.
pub open spec fn stop_scaled(stop: ColorStop, alpha: u32, scaled: ColorStop) -> bool {
    &&& scaled.offset == stop.offset
    &&& stop_color_scaled(stop.color, alpha, scaled.color)
}

/// `scaled` is the color of a stop with its alpha multiplied by `alpha`, which changes nothing where
/// `alpha` is 1.
pub open spec fn stop_color_scaled(color: DynamicColor, alpha: u32, scaled: DynamicColor) -> bool {
    if alpha == ONE_BITS {
        scaled == color
    } else {
        color.scaled(alpha, scaled)
    }
}

/// `scaled` is `color` with its alpha multiplied by `alpha`, which changes nothing where
/// `alpha` is 1.
pub open spec fn color_scaled(color: Color, alpha: u32, scaled: Color) -> bool {
    if alpha == ONE_BITS {
        scaled == color
    } else {
        &&& scaled.components[0] == color.components[0]
        &&& scaled.components[1] == color.components[1]
        &&& scaled.components[2] == color.components[2]
        &&& same_number(scaled.components[3], scaled_alpha(color.components[3], alpha))
    }
}

/// `all` holds `before`, followed by `stops` scaled by `alpha`.
pub open spec fn stops_added(before: Seq<ColorStop>, stops: Seq<ColorStop>, alpha: u32, all: Seq<ColorStop>) -> bool {
    &&& all.len() == before.len() + stops.len()
    &&& all.take(before.len() as int) == before
    &&& forall|i: int|
        0 <= i < stops.len() ==> stop_scaled(stops[i], alpha, #[trigger] all[before.len() + i])
}

/// Result for adding a sequence of color stops.
#[derive(Clone, Copy, Debug)]
pub enum RampStops {
    /// Color stop sequence was empty.
    Empty,
    /// Contained a single color stop.
    One(DynamicColor),
    /// More than one color stop.
    Many,
}

impl Encoding {
    fn scale_color(color: Color, alpha: u32) -> (c: Color)
        ensures
            color_scaled(color, alpha, c),
    {
        if alpha != ONE_BITS {
            color.multiply_alpha(alpha)
        } else {
            color
        }
    }

    fn scale_stop(color: DynamicColor, alpha: u32) -> (c: DynamicColor)
        ensures
            stop_color_scaled(color, alpha, c),
    {
        if alpha != ONE_BITS {
            color.multiply_alpha(alpha)
        } else {
            color
        }
    }

    /// `next` is `self` after a ramp of `stops` has been added: two or more stops are stored
    /// with a patch that points at the next word of draw data, fewer are not.
    pub open spec fn ramp_added(
        self,
        next: Encoding,
        stops: Seq<ColorStop>,
        alpha: u32,
        extend: Extend,
        ramp: RampStops,
    ) -> bool {
        &&& next == (Encoding { resources: next.resources, ..self })
        &&& next.resources == (Resources {
            patches: next.resources.patches,
            color_stops: next.resources.color_stops,
            ..self.resources
        })
        &&& if stops.len() >= 2 {
            &&& ramp is Many
            &&& stops_added(self.resources.color_stops@, stops, alpha, next.resources.color_stops@)
            &&& next.resources.patches@ == self.resources.patches@.push(
                Patch::Ramp {
                    draw_data_offset: self.draw_data.len(),
                    stops: IndexRange {
                        start: self.resources.color_stops.len(),
                        end: (self.resources.color_stops.len() + stops.len()) as usize,
                    },
                    extend,
                },
            )
        } else {
            &&& next.resources.patches@ == self.resources.patches@
            &&& next.resources.color_stops@ == self.resources.color_stops@
            &&& stops.len() == 0 ==> ramp is Empty
            &&& stops.len() == 1 ==> (ramp matches RampStops::One(c) && stop_color_scaled(stops[0].color, alpha, c))
        }
    }

    fn add_ramp(&mut self, color_stops: &[ColorStop], alpha: u32, extend: Extend) -> (r: RampStops)
        requires
            old(self).resources.color_stops@.len() + color_stops@.len() <= usize::MAX,
        ensures
            old(self).ramp_added(*final(self), color_stops@, alpha, extend, r),
    {
        let offset: usize = self.draw_data.len();
        let stops_start: usize = self.resources.color_stops.len();
        let ghost before = self.resources.color_stops@;
        assert(before.take(before.len() as int) =~= before);
        let mut i: usize = 0;
        while i < color_stops.len()
            invariant
                i <= color_stops.len(),
                *self == (Encoding { resources: self.resources, ..*old(self) }),
                self.resources == (Resources { color_stops: self.resources.color_stops, ..old(self).resources }),
                stops_added(before, color_stops@.take(i as int), alpha, self.resources.color_stops@),
            decreases color_stops.len() - i,
        {
            let stop: ColorStop = color_stops[i];
            let ghost so_far = self.resources.color_stops@;
            let scaled: ColorStop = ColorStop { offset: stop.offset, color: Self::scale_stop(stop.color, alpha) };
            self.resources.color_stops.push(scaled);
            proof {
                let taken = color_stops@.take(i as int);
                let more = color_stops@.take(i as int + 1);
                assert(more =~= taken.push(stop));
                assert(self.resources.color_stops@.take(before.len() as int) =~= so_far.take(before.len() as int));
                assert forall|k: int| 0 <= k < more.len() implies stop_scaled(
                    more[k],
                    alpha,
                    #[trigger] self.resources.color_stops@[before.len() + k],
                ) by {
                    if k < i {
                        assert(self.resources.color_stops@[before.len() + k] == so_far[before.len() + k]);
                    }
                }
            }
            i = i + 1;
        }
        assert(color_stops@.take(color_stops@.len() as int) =~= color_stops@);
        let stops_end: usize = self.resources.color_stops.len();
        let added: usize = stops_end - stops_start;
        if added == 0 {
            assert(self.resources.color_stops@ =~= before);
            RampStops::Empty
        } else if added == 1 {
            assert(stop_scaled(color_stops@[0], alpha, self.resources.color_stops@[before.len() + 0int]));
            let last: Option<ColorStop> = self.resources.color_stops.pop();
            assert(self.resources.color_stops@ =~= before);
            match last {
                Some(stop) => RampStops::One(stop.color),
                None => RampStops::Empty,
            }
        } else {
            self.resources.patches.push(
                Patch::Ramp { draw_data_offset: offset, stops: IndexRange { start: stops_start, end: stops_end }, extend },
            );
            RampStops::Many
        }
    }

    /// `next` is `self` after a gradient brush has been encoded: as a gradient over a ramp,
    /// as the one color that it has, or as the transparent color.
    pub open spec fn gradient_encoded(
        self,
        next: Encoding,
        tag: u32,
        words: Seq<u32>,
        stops: Seq<ColorStop>,
        alpha: u32,
        extend: Extend,
    ) -> bool {
        exists|between: Encoding, ramp: RampStops|
            {
                &&& #[trigger] self.ramp_added(between, stops, alpha, extend, ramp)
                &&& match ramp {
                    RampStops::Empty => between.object_encoded(next, DrawTag::COLOR, seq![0u32]),
                    RampStops::One(color) => exists|rgba: u32|
                        #[trigger] color.packs_into(rgba) && between.object_encoded(next, DrawTag::COLOR, seq![rgba]),
                    RampStops::Many => between.object_encoded(next, tag, words),
                }
            }
    }

    fn encode_transparent(&mut self)
        ensures
            old(self).object_encoded(*final(self), DrawTag::COLOR, seq![0u32]),
            old(self).wf() ==> final(self).wf(),
    {
        let color: DrawColor = DrawColor { rgba: Color::transparent().to_premultiplied_u32() };
        self.encode_color(color);
    }

    /// Encodes a linear gradient brush.
    pub fn encode_linear_gradient(
        &mut self,
        gradient: DrawLinearGradient,
        color_stops: &[ColorStop],
        alpha: u32,
        extend: Extend,
    )
        requires
            old(self).resources.color_stops@.len() + color_stops@.len() <= usize::MAX,
        ensures
            old(self).gradient_encoded(
                *final(self),
                DrawTag::LINEAR_GRADIENT,
                gradient.words(),
                color_stops@,
                alpha,
                extend,
            ),
            old(self).wf() ==> final(self).wf(),
    {
        let ramp: RampStops = self.add_ramp(color_stops, alpha, extend);
        let ghost between = *self;
        match ramp {
            RampStops::Empty => self.encode_transparent(),
            RampStops::One(color) => {
                let rgba: u32 = color.to_premultiplied_u32();
                self.encode_color(DrawColor { rgba });
                assert(color.packs_into(rgba));
            },
            RampStops::Many => {
                self.draw_tags.push(DrawTag(DrawTag::LINEAR_GRADIENT));
                self.draw_data.push(gradient.index);
                self.draw_data.push(gradient.p0[0]);
                self.draw_data.push(gradient.p0[1]);
                self.draw_data.push(gradient.p1[0]);
                self.draw_data.push(gradient.p1[1]);
                assert(self.draw_data@ =~= between.draw_data@ + gradient.words());
            },
        }
        proof {
            assert(old(self).ramp_added(between, color_stops@, alpha, extend, ramp));
            tag_sizes();
            if old(self).wf() && ramp is Many {
                between.lemma_object_keeps_wf(*self, DrawTag::LINEAR_GRADIENT, gradient.words());
            }
        }
    }

    /// Encodes a radial gradient brush. `radii_match` says that the radii differ by less than
    /// 1/4096; a gradient between two such circles around one point is transparent.
    pub fn encode_radial_gradient(
        &mut self,
        gradient: DrawRadialGradient,
        radii_match: bool,
        color_stops: &[ColorStop],
        alpha: u32,
        extend: Extend,
    )
        requires
            old(self).resources.color_stops@.len() + color_stops@.len() <= usize::MAX,
        ensures
            old(self).radial_encoded(*final(self), gradient, radii_match, color_stops@, alpha, extend),
            old(self).wf() ==> final(self).wf(),
    {
        if float_eq(gradient.p0[0], gradient.p1[0]) && float_eq(gradient.p0[1], gradient.p1[1]) && radii_match {
            self.encode_transparent();
            return;
        }
        let ramp: RampStops = self.add_ramp(color_stops, alpha, extend);
        let ghost between = *self;
        match ramp {
            RampStops::Empty => self.encode_transparent(),
            RampStops::One(color) => {
                let rgba: u32 = color.to_premultiplied_u32();
                self.encode_color(DrawColor { rgba });
                assert(color.packs_into(rgba));
            },
            RampStops::Many => {
                self.draw_tags.push(DrawTag(DrawTag::RADIAL_GRADIENT));
                self.draw_data.push(gradient.index);
                self.draw_data.push(gradient.p0[0]);
                self.draw_data.push(gradient.p0[1]);
                self.draw_data.push(gradient.p1[0]);
                self.draw_data.push(gradient.p1[1]);
                self.draw_data.push(gradient.r0);
                self.draw_data.push(gradient.r1);
                assert(self.draw_data@ =~= between.draw_data@ + gradient.words());
            },
        }
        proof {
            assert(old(self).ramp_added(between, color_stops@, alpha, extend, ramp));
            tag_sizes();
            if old(self).wf() && ramp is Many {
                between.lemma_object_keeps_wf(*self, DrawTag::RADIAL_GRADIENT, gradient.words());
            }
        }
    }

    /// `next` is `self` after a radial gradient brush has been encoded.
    pub open spec fn radial_encoded(
        self,
        next: Encoding,
        gradient: DrawRadialGradient,
        radii_match: bool,
        stops: Seq<ColorStop>,
        alpha: u32,
        extend: Extend,
    ) -> bool {
        if equal(gradient.p0[0], gradient.p1[0]) && equal(gradient.p0[1], gradient.p1[1]) && radii_match {
            self.object_encoded(next, DrawTag::COLOR, seq![0u32])
        } else {
            self.gradient_encoded(next, DrawTag::RADIAL_GRADIENT, gradient.words(), stops, alpha, extend)
        }
    }

    /// Encodes a sweep gradient brush. `angles_match` says that the normalized angles differ
    /// by less than 1/32768; such a gradient is transparent.
    pub fn encode_sweep_gradient(
        &mut self,
        gradient: DrawSweepGradient,
        angles_match: bool,
        color_stops: &[ColorStop],
        alpha: u32,
        extend: Extend,
    )
        requires
            old(self).resources.color_stops@.len() + color_stops@.len() <= usize::MAX,
        ensures
            old(self).sweep_encoded(*final(self), gradient, angles_match, color_stops@, alpha, extend),
            old(self).wf() ==> final(self).wf(),
    {
        if angles_match {
            self.encode_transparent();
            return;
        }
        let ramp: RampStops = self.add_ramp(color_stops, alpha, extend);
        let ghost between = *self;
        match ramp {
            RampStops::Empty => self.encode_transparent(),
            RampStops::One(color) => {
                let rgba: u32 = color.to_premultiplied_u32();
                self.encode_color(DrawColor { rgba });
                assert(color.packs_into(rgba));
            },
            RampStops::Many => {
                self.draw_tags.push(DrawTag(DrawTag::SWEEP_GRADIENT));
                self.draw_data.push(gradient.index);
                self.draw_data.push(gradient.p0[0]);
                self.draw_data.push(gradient.p0[1]);
                self.draw_data.push(gradient.t0);
                self.draw_data.push(gradient.t1);
                assert(self.draw_data@ =~= between.draw_data@ + gradient.words());
            },
        }
        proof {
            assert(old(self).ramp_added(between, color_stops@, alpha, extend, ramp));
            tag_sizes();
            if old(self).wf() && ramp is Many {
                between.lemma_object_keeps_wf(*self, DrawTag::SWEEP_GRADIENT, gradient.words());
            }
        }
    }

    /// `next` is `self` after a sweep gradient brush has been encoded.
    pub open spec fn sweep_encoded(
        self,
        next: Encoding,
        gradient: DrawSweepGradient,
        angles_match: bool,
        stops: Seq<ColorStop>,
        alpha: u32,
        extend: Extend,
    ) -> bool {
        if angles_match {
            self.object_encoded(next, DrawTag::COLOR, seq![0u32])
        } else {
            self.gradient_encoded(next, DrawTag::SWEEP_GRADIENT, gradient.words(), stops, alpha, extend)
        }
    }

    /// The draw data of an image; its atlas coordinates are patched in later.
    pub open spec fn image_words(image: ImageData, sampler: ImageSampler) -> Seq<u32> {
        DrawImage {
            xy: 0,
            width_height: packed_size(image.width, image.height),
            sample_alpha: packed_sampling(image, sampler),
        }.words()
    }

    /// `next` is `self` after an image brush has been encoded.
    pub open spec fn image_encoded(self, next: Encoding, image: ImageData, sampler: ImageSampler) -> bool {
        &&& next == (Encoding {
            draw_tags: next.draw_tags,
            draw_data: next.draw_data,
            resources: next.resources,
            ..self
        })
        &&& next.resources == (Resources { patches: next.resources.patches, ..self.resources })
        &&& next.resources.patches@ == self.resources.patches@.push(
            Patch::Image { image, draw_data_offset: self.draw_data.len() },
        )
        &&& next.draw_tags@ == self.draw_tags@.push(DrawTag(DrawTag::IMAGE))
        &&& next.draw_data@ == self.draw_data@ + Self::image_words(image, sampler)
    }

    /// Encodes an image brush.
    pub fn encode_image(&mut self, image: ImageData, sampler: ImageSampler)
        ensures
            old(self).image_encoded(*final(self), image, sampler),
            old(self).wf() ==> final(self).wf(),
    {
        let offset: usize = self.draw_data.len();
        self.resources.patches.push(Patch::Image { image, draw_data_offset: offset });
        self.draw_tags.push(DrawTag(DrawTag::IMAGE));
        self.draw_data.push(0);
        self.draw_data.push(pack_size(image.width, image.height));
        self.draw_data.push(pack_sampling(&image, &sampler));
        proof {
            let words = Self::image_words(image, sampler);
            assert(self.draw_data@ =~= old(self).draw_data@ + words);
            tag_sizes();
            if old(self).wf() {
                old(self).lemma_object_keeps_wf(*self, DrawTag::IMAGE, words);
            }
        }
    }

    /// Encodes a blurred rounded rectangle brush.
    pub fn encode_blurred_rounded_rect(&mut self, color: DrawColor, width: u32, height: u32, radius: u32, std_dev: u32)
        ensures
            old(self).object_encoded(
                *final(self),
                DrawTag::BLUR_RECT,
                (DrawBlurRoundedRect { color, width, height, radius, std_dev }).words(),
            ),
            old(self).wf() ==> final(self).wf(),
            ({
                let n = old(self).draw_data@.len() as int;
                &&& final(self).draw_data@.len() == n + 5
                &&& final(self).draw_data@[n] == color.rgba
                &&& final(self).draw_data@[n + 1] == width
                &&& final(self).draw_data@[n + 2] == height
                &&& final(self).draw_data@[n + 3] == radius
                &&& final(self).draw_data@[n + 4] == std_dev
                &&& final(self).draw_tags@.last().0 == 0x2d4
            }),
    {
        self.draw_tags.push(DrawTag(DrawTag::BLUR_RECT));
        self.draw_data.push(color.rgba);
        self.draw_data.push(width);
        self.draw_data.push(height);
        self.draw_data.push(radius);
        self.draw_data.push(std_dev);
        proof {
            let words = (DrawBlurRoundedRect { color, width, height, radius, std_dev }).words();
            assert(self.draw_data@ =~= old(self).draw_data@ + words);
            tag_sizes();
            if old(self).wf() {
                old(self).lemma_object_keeps_wf(*self, DrawTag::BLUR_RECT, words);
            }
        }
    }

    /// Encodes a brush with an alpha modifier.
    pub fn encode_brush(&mut self, brush: &Brush, alpha: u32)
        requires
            old(self).resources.color_stops@.len() + brush.n_stops() <= usize::MAX,
        ensures
            old(self).brush_encoded(*final(self), *brush, alpha),
            old(self).wf() ==> final(self).wf(),
    {
        match brush {
            Brush::Solid(color) => {
                let scaled: Color = Self::scale_color(*color, alpha);
                self.encode_color(DrawColor { rgba: scaled.to_premultiplied_u32() });
                assert(color_scaled(*color, alpha, scaled));
            },
            Brush::Gradient(gradient) => match gradient.kind {
                GradientKind::Linear { start, end } => {
                    self.encode_linear_gradient(
                        DrawLinearGradient { index: 0, p0: start, p1: end },
                        gradient.stops.as_slice(),
                        alpha,
                        gradient.extend,
                    );
                },
                GradientKind::Radial { start_center, start_radius, end_center, end_radius, radii_match } => {
                    self.encode_radial_gradient(
                        DrawRadialGradient {
                            index: 0,
                            p0: start_center,
                            p1: end_center,
                            r0: start_radius,
                            r1: end_radius,
                        },
                        radii_match,
                        gradient.stops.as_slice(),
                        alpha,
                        gradient.extend,
                    );
                },
                GradientKind::Sweep { center, start_turn, end_turn, angles_match } => {
                    self.encode_sweep_gradient(
                        DrawSweepGradient { index: 0, p0: center, t0: start_turn, t1: end_turn },
                        angles_match,
                        gradient.stops.as_slice(),
                        alpha,
                        gradient.extend,
                    );
                },
            },
            Brush::Image { image, sampler } => {
                self.encode_image(*image, *sampler);
            },
        }
    }

    /// `next` is `self` after a brush has been encoded.
    pub open spec fn brush_encoded(self, next: Encoding, brush: Brush, alpha: u32) -> bool {
        match brush {
            Brush::Solid(color) => exists|scaled: Color|
                #[trigger] color_scaled(color, alpha, scaled) && self.object_encoded(
                    next,
                    DrawTag::COLOR,
                    seq![scaled.packed()],
                ),
            Brush::Gradient(gradient) => match gradient.kind {
                GradientKind::Linear { start, end } => self.gradient_encoded(
                    next,
                    DrawTag::LINEAR_GRADIENT,
                    (DrawLinearGradient { index: 0, p0: start, p1: end }).words(),
                    gradient.stops@,
                    alpha,
                    gradient.extend,
                ),
                GradientKind::Radial { start_center, start_radius, end_center, end_radius, radii_match } => self.radial_encoded(
                    next,
                    DrawRadialGradient { index: 0, p0: start_center, p1: end_center, r0: start_radius, r1: end_radius },
                    radii_match,
                    gradient.stops@,
                    alpha,
                    gradient.extend,
                ),
                GradientKind::Sweep { center, start_turn, end_turn, angles_match } => self.sweep_encoded(
                    next,
                    DrawSweepGradient { index: 0, p0: center, t0: start_turn, t1: end_turn },
                    angles_match,
                    gradient.stops@,
                    alpha,
                    gradient.extend,
                ),
            },
            Brush::Image { image, sampler } => self.image_encoded(next, image, sampler),
        }
    }
}

/// Position of a gradient. Coordinates are the bit patterns of 32-bit floats.
#[derive(Clone, Copy, Debug)]
pub enum GradientKind {
    /// Gradient that transitions between two points.
    Linear { start: [u32; 2], end: [u32; 2] },
    /// Gradient that transitions between two circles.
    Radial {
        start_center: [u32; 2],
        start_radius: u32,
        end_center: [u32; 2],
        end_radius: u32,
        /// The radii differ by less than 1/4096.
        radii_match: bool,
    },
    /// Gradient that rotates around a center, between two angles counted in full turns.
    Sweep {
        center: [u32; 2],
        start_turn: u32,
        end_turn: u32,
        /// The angles differ by less than 1/32768 of a turn.
        angles_match: bool,
    },
}

/// Gradient brush.
#[derive(Debug)]
pub struct Gradient {
    pub kind: GradientKind,
    /// Extend mode.
    pub extend: Extend,
    /// Color stop collection.
    pub stops: Vec<ColorStop>,
}

/// Color content of a filled or stroked shape.
#[derive(Debug)]
pub enum Brush {
    /// Solid color brush.
    Solid(Color),
    /// Gradient brush.
    Gradient(Gradient),
    /// Image brush, with all alpha multipliers combined in the sampler.
    Image { image: ImageData, sampler: ImageSampler },
}

impl Brush {
    /// Color stops that the brush holds.
    pub open spec fn n_stops(self) -> nat {
        match self {
            Brush::Gradient(gradient) => gradient.stops@.len(),
            _ => 0,
        }
    }
}

/// Some layer of the stack has a filter.
pub open spec fn any_filter(stack: Seq<Option<FilterPrimitive>>) -> bool {
    exists|i: int| 0 <= i < stack.len() && (#[trigger] stack[i]) is Some
}

impl Encoding {
    /// Encodes a begin clip command.
    pub fn encode_begin_clip(&mut self, parameters: DrawBeginClip)
        requires
            old(self).n_clips < u32::MAX,
            old(self).n_open_clips < u32::MAX,
        ensures
            old(self).clip_begun(*final(self), parameters),
            old(self).wf() ==> final(self).wf(),
    {
        let filter: Option<FilterPrimitive> = self.pending_layer_filter.take();
        self.clip_filter_stack.push(filter);
        self.draw_tags.push(DrawTag(DrawTag::BEGIN_CLIP));
        self.draw_data.push(parameters.blend_mode);
        self.draw_data.push(parameters.alpha);
        // Reserve a word for the layer's filter; `encode_end_clip` fills it in when this
        // clip turns out to be a filter layer.
        let layer_idx_slot: usize = self.draw_data.len();
        self.draw_data.push(0);
        self.begin_clip_stack.push(OpenClip { parameters, layer_idx_slot });
        self.n_clips = self.n_clips + 1;
        self.n_open_clips = self.n_open_clips + 1;
        proof {
            assert(self.draw_data@ =~= old(self).draw_data@ + parameters.words() + seq![0u32]);
            if old(self).wf() {
                tag_sizes();
                lemma_push_tag(old(self).draw_tags@, DrawTag(DrawTag::BEGIN_CLIP));
                let was = *old(self);
                assert forall|i: int| 0 <= i < self.begin_clip_stack@.len() implies points_at_begin(
                    #[trigger] self.begin_clip_stack@[i],
                    self.draw_data@,
                ) by {
                    if i < was.begin_clip_stack@.len() {
                        assert(points_at_begin(was.begin_clip_stack@[i], was.draw_data@));
                    }
                }
                assert forall|i: int, j: int| 0 <= i < j < self.begin_clip_stack@.len() implies (
                #[trigger] self.begin_clip_stack@[i]).layer_idx_slot + 3 <= (
                #[trigger] self.begin_clip_stack@[j]).layer_idx_slot by {
                    assert(points_at_begin(was.begin_clip_stack@[i], was.draw_data@));
                    if j < was.begin_clip_stack@.len() {
                        assert(self.begin_clip_stack@[j] == was.begin_clip_stack@[j]);
                    }
                }
            }
        }
    }

    /// `next` is `self` after a clip has begun.
    pub open spec fn clip_begun(self, next: Encoding, parameters: DrawBeginClip) -> bool {
        &&& next == (Encoding {
            draw_tags: next.draw_tags,
            draw_data: next.draw_data,
            clip_filter_stack: next.clip_filter_stack,
            begin_clip_stack: next.begin_clip_stack,
            pending_layer_filter: None,
            n_clips: (self.n_clips + 1) as u32,
            n_open_clips: (self.n_open_clips + 1) as u32,
            ..self
        })
        &&& next.draw_tags@ == self.draw_tags@.push(DrawTag(DrawTag::BEGIN_CLIP))
        &&& next.draw_data@ == self.draw_data@ + parameters.words() + seq![0u32]
        &&& next.clip_filter_stack@ == self.clip_filter_stack@.push(self.pending_layer_filter)
        &&& next.begin_clip_stack@ == self.begin_clip_stack@.push(
            OpenClip { parameters, layer_idx_slot: (self.draw_data@.len() + 2) as usize },
        )
    }

    /// Associates a filter with the next [`Self::encode_begin_clip`].
    pub fn set_pending_layer_filter(&mut self, filter: Option<FilterPrimitive>)
        ensures
            *final(self) == (Encoding { pending_layer_filter: filter, ..*old(self) }),
            old(self).wf() ==> final(self).wf(),
    {
        self.pending_layer_filter = filter;
    }

    /// The index that the filter of the innermost open clip receives; zero without a filter.
    pub open spec fn ending_layer_index(self) -> u32 {
        if self.clip_filter_stack@.last() is Some {
            self.layer_filter_effects@.len() as u32
        } else {
            0
        }
    }

    /// The draw data of the end of the innermost open clip.
    pub open spec fn end_clip_words(self) -> Seq<u32> {
        let parameters = self.begin_clip_stack@.last().parameters;
        if self.clip_filter_stack@.last() is Some {
            parameters.words().push(self.ending_layer_index())
        } else {
            parameters.words()
        }
    }

    /// `next` is `self` after the innermost open clip has ended.
    pub open spec fn clip_ended(self, next: Encoding) -> bool {
        let clip = self.begin_clip_stack@.last();
        let filter = self.clip_filter_stack@.last();
        &&& next == (Encoding {
            draw_tags: next.draw_tags,
            draw_data: next.draw_data,
            path_tags: next.path_tags,
            clip_filter_stack: next.clip_filter_stack,
            begin_clip_stack: next.begin_clip_stack,
            layer_filter_effects: next.layer_filter_effects,
            n_paths: (self.n_paths + 1) as u32,
            n_clips: (self.n_clips + 1) as u32,
            n_open_clips: (self.n_open_clips - 1) as u32,
            ..self
        })
        &&& next.draw_tags@ == self.draw_tags@.push(
            DrawTag(
                if filter is Some {
                    DrawTag::END_CLIP_FILTER
                } else {
                    DrawTag::END_CLIP
                },
            ),
        )
        &&& next.draw_data@ == self.draw_data@.update(clip.layer_idx_slot as int, self.ending_layer_index())
            + self.end_clip_words()
        &&& next.path_tags@ == self.path_tags@.push(PathTag(PathTag::PATH))
        &&& next.clip_filter_stack@ == self.clip_filter_stack@.drop_last()
        &&& next.begin_clip_stack@ == self.begin_clip_stack@.drop_last()
        &&& match filter {
            Some(primitive) => next.layer_filter_effects@ == self.layer_filter_effects@.push(
                LayerFilterEffect {
                    primitive,
                    layer_blend: clip.parameters.blend_mode,
                    layer_alpha: clip.parameters.alpha,
                    layer_index: self.ending_layer_index(),
                    is_nested: any_filter(self.clip_filter_stack@.drop_last()),
                },
            ),
            None => next.layer_filter_effects@ == self.layer_filter_effects@,
        }
    }

    fn has_enclosing_filter(&self) -> (b: bool)
        ensures
            b == any_filter(self.clip_filter_stack@),
    {
        let mut i: usize = 0;
        while i < self.clip_filter_stack.len()
            invariant
                i <= self.clip_filter_stack.len(),
                forall|k: int| 0 <= k < i ==> (#[trigger] self.clip_filter_stack@[k]) is None,
            decreases self.clip_filter_stack.len() - i,
        {
            if self.clip_filter_stack[i].is_some() {
                assert(self.clip_filter_stack@[i as int] is Some);
                return true;
            }
            i = i + 1;
        }
        false
    }

    /// Encodes an end clip command; does nothing where no clip is open.
    pub fn encode_end_clip(&mut self)
        requires
            old(self).wf(),
            old(self).n_paths < u32::MAX,
            old(self).n_clips < u32::MAX,
        ensures
            old(self).n_open_clips == 0 ==> *final(self) == *old(self),
            old(self).n_open_clips > 0 ==> old(self).clip_ended(*final(self)),
            final(self).wf(),
    {
        if self.n_open_clips > 0 {
            let popped: Option<Option<FilterPrimitive>> = self.clip_filter_stack.pop();
            let filter: Option<FilterPrimitive> = match popped {
                Some(f) => f,
                None => None,
            };
            let n_open: usize = self.begin_clip_stack.len();
            let clip: OpenClip = self.begin_clip_stack[n_open - 1];
            let _ = self.begin_clip_stack.pop();
            let parameters: DrawBeginClip = clip.parameters;
            let mut pushed_layer_index: u32 = 0;
            if let Some(primitive) = filter {
                let layer_index: u32 = self.layer_filter_effects.len() as u32;
                pushed_layer_index = layer_index;
                let is_nested: bool = self.has_enclosing_filter();
                self.layer_filter_effects.push(
                    LayerFilterEffect {
                        primitive,
                        layer_blend: parameters.blend_mode,
                        layer_alpha: parameters.alpha,
                        layer_index,
                        is_nested,
                    },
                );
            }
            // Fill in the word that the begin of the clip reserved.
            assert(points_at_begin(old(self).begin_clip_stack@.last(), old(self).draw_data@));
            self.draw_data.set(clip.layer_idx_slot, pushed_layer_index);
            if filter.is_some() {
                self.draw_tags.push(DrawTag(DrawTag::END_CLIP_FILTER));
                self.draw_data.push(parameters.blend_mode);
                self.draw_data.push(parameters.alpha);
                self.draw_data.push(pushed_layer_index);
            } else {
                self.draw_tags.push(DrawTag(DrawTag::END_CLIP));
                self.draw_data.push(parameters.blend_mode);
                self.draw_data.push(parameters.alpha);
            }
            // Every draw tag has a path of its own.
            self.path_tags.push(PathTag(PathTag::PATH));
            self.n_paths = self.n_paths + 1;
            self.n_clips = self.n_clips + 1;
            self.n_open_clips = self.n_open_clips - 1;
            proof {
                let was = *old(self);
                assert(self.draw_data@ =~= was.draw_data@.update(
                    clip.layer_idx_slot as int,
                    was.ending_layer_index(),
                ) + was.end_clip_words());
                tag_sizes();
                lemma_push_tag(was.draw_tags@, self.draw_tags@.last());
                let open = self.begin_clip_stack@;
                assert forall|i: int| 0 <= i < open.len() implies points_at_begin(
                    #[trigger] open[i],
                    self.draw_data@,
                ) by {
                    assert(open[i] == was.begin_clip_stack@[i]);
                    assert(points_at_begin(was.begin_clip_stack@[i], was.draw_data@));
                    assert(was.begin_clip_stack@[i].layer_idx_slot + 3 <= was.begin_clip_stack@[n_open
                        - 1].layer_idx_slot);
                }
                assert forall|i: int, j: int| 0 <= i < j < open.len() implies (#[trigger] open[i]).layer_idx_slot + 3 <= (
                #[trigger] open[j]).layer_idx_slot by {
                    assert(open[i] == was.begin_clip_stack@[i] && open[j] == was.begin_clip_stack@[j]);
                }
            }
        }
    }

    /// Forces the next transform and style to be encoded even if they match
    /// the current state.
    pub fn force_next_transform_and_style(&mut self)
        ensures
            *final(self) == (Encoding {
                flags: old(self).flags | (Self::FORCE_NEXT_TRANSFORM | Self::FORCE_NEXT_STYLE),
                ..*old(self)
            }),
            final(self).flags & Self::FORCE_NEXT_TRANSFORM != 0,
            final(self).flags & Self::FORCE_NEXT_STYLE != 0,
            old(self).wf() ==> final(self).wf(),
            forall|style: Style| #[trigger] final(self).needs_style(style),
            forall|transform: Transform| #[trigger] final(self).needs_transform(transform),
    {
        let flags: u32 = self.flags;
        assert((flags | (1u32 | 2u32)) & 1u32 != 0 && (flags | (1u32 | 2u32)) & 2u32 != 0) by (bit_vector);
        self.flags = flags | (Self::FORCE_NEXT_TRANSFORM | Self::FORCE_NEXT_STYLE);
    }

    /// Swaps the last two tags in the path tag stream; used for transformed
    /// gradients.
    pub fn swap_last_path_tags(&mut self)
        requires
            old(self).path_tags@.len() >= 2,
        ensures
            *final(self) == (Encoding { path_tags: final(self).path_tags, ..*old(self) }),
            final(self).path_tags@ == old(self).path_tags@.update(
                old(self).path_tags@.len() - 1,
                old(self).path_tags@[old(self).path_tags@.len() - 2],
            ).update(old(self).path_tags@.len() - 2, old(self).path_tags@.last()),
            old(self).wf() ==> final(self).wf(),
            ({
                let n = old(self).path_tags@.len() as int;
                &&& final(self).path_tags@.len() == n
                &&& final(self).path_tags@[n - 1] == old(self).path_tags@[n - 2]
                &&& final(self).path_tags@[n - 2] == old(self).path_tags@[n - 1]
                &&& forall|i: int| 0 <= i < n - 2 ==> #[trigger] final(self).path_tags@[i] == old(self).path_tags@[i]
            }),
    {
        let len: usize = self.path_tags.len();
        let last: PathTag = self.path_tags[len - 1];
        let before: PathTag = self.path_tags[len - 2];
        self.path_tags.set(len - 1, before);
        self.path_tags.set(len - 2, last);
    }
}

spec fn run_bases(offsets: StreamOffsets, glyphs: usize, coords: usize) -> Bases {
    Bases { offsets, stops: 0, glyph_runs: 0, glyphs: glyphs as int, coords: coords as int }
}

spec fn patch_bases(draw_data: usize, stops: usize, glyph_runs: usize) -> Bases {
    Bases {
        offsets: StreamOffsets { path_tags: 0, path_data: 0, draw_tags: 0, draw_data, transforms: 0, styles: 0 },
        stops: stops as int,
        glyph_runs: glyph_runs as int,
        glyphs: 0,
        coords: 0,
    }
}

/// The transforms of an encoding, multiplied by the transform that it is appended with.
#[derive(Debug)]
pub struct MovedTransforms {
    /// The transform stream.
    pub transforms: Vec<Transform>,
    /// The transforms of the glyph runs.
    pub run_transforms: Vec<Transform>,
}

impl MovedTransforms {
    /// There is one transform for each of `other`.
    pub open spec fn covers(self, other: Encoding) -> bool {
        &&& self.transforms@.len() == other.transforms@.len()
        &&& self.run_transforms@.len() == other.resources.glyph_runs@.len()
    }
}

impl OpenClip {
    /// The clip after its encoding has been appended behind `words` words of draw data.
    pub open spec fn rebased(self, words: int) -> OpenClip {
        OpenClip { layer_idx_slot: (self.layer_idx_slot + words) as usize, ..self }
    }
}

impl Encoding {
    /// Where the streams of an appended encoding will start.
    pub open spec fn bases(self) -> Bases {
        Bases {
            offsets: self.offsets(),
            stops: self.resources.color_stops@.len() as int,
            glyph_runs: self.resources.glyph_runs@.len() as int,
            glyphs: self.resources.glyphs@.len() as int,
            coords: self.resources.normalized_coords@.len() as int,
        }
    }

    /// The counts and offsets of `other` can be added to those of `self`.
    pub open spec fn can_append(self, other: Encoding) -> bool {
        &&& self.n_paths + other.n_paths <= u32::MAX
        &&& self.n_path_segments + other.n_path_segments <= u32::MAX
        &&& self.n_clips + other.n_clips <= u32::MAX
        &&& self.n_open_clips + other.n_open_clips <= u32::MAX
        &&& forall|i: int|
            0 <= i < other.resources.glyph_runs@.len() ==> (#[trigger] other.resources.glyph_runs@[i]).can_rebase(
                self.bases(),
            )
        &&& forall|i: int|
            0 <= i < other.resources.patches@.len() ==> (#[trigger] other.resources.patches@[i]).can_rebase(
                self.bases(),
            )
        &&& forall|i: int|
            0 <= i < other.begin_clip_stack@.len() ==> (#[trigger] other.begin_clip_stack@[i]).layer_idx_slot
                + self.draw_data@.len() <= usize::MAX
    }

    /// The glyph runs of `other`, rebased onto `self`, with their transforms multiplied.
    pub open spec fn moved_runs(self, other: Encoding, moved: Option<MovedTransforms>) -> Seq<GlyphRun> {
        Seq::new(
            other.resources.glyph_runs@.len(),
            |i: int|
                {
                    let run = other.resources.glyph_runs@[i].rebased(self.bases());
                    match moved {
                        Some(m) => GlyphRun { transform: m.run_transforms@[i], ..run },
                        None => run,
                    }
                },
        )
    }

    /// The patches of `other`, rebased onto `self`.
    pub open spec fn moved_patches(self, other: Encoding) -> Seq<Patch> {
        other.resources.patches@.map_values(|p: Patch| p.rebased(self.bases()))
    }

    /// The open clips of `other`, rebased onto `self`.
    pub open spec fn moved_clips(self, other: Encoding) -> Seq<OpenClip> {
        other.begin_clip_stack@.map_values(|c: OpenClip| c.rebased(self.draw_data@.len() as int))
    }

    /// The transforms that `other` is appended with.
    pub open spec fn transforms_moved(other: Encoding, moved: Option<MovedTransforms>) -> Seq<Transform> {
        match moved {
            Some(m) => m.transforms@,
            None => other.transforms@,
        }
    }

    /// The transforms that the glyph runs of `other` are appended with.
    pub open spec fn run_transforms_moved(other: Encoding, moved: Option<MovedTransforms>) -> Seq<Transform> {
        match moved {
            Some(m) => m.run_transforms@,
            None => other.resources.glyph_runs@.map_values(|run: GlyphRun| run.transform),
        }
    }

    /// `next` is `self` followed by `other`.
    pub open spec fn appended(self, next: Encoding, other: Encoding, moved: Option<MovedTransforms>) -> bool {
        &&& next.path_tags@ == self.path_tags@ + other.path_tags@
        &&& next.path_data@ == self.path_data@ + other.path_data@
        &&& next.draw_tags@ == self.draw_tags@ + other.draw_tags@
        &&& next.draw_data@ == self.draw_data@ + other.draw_data@
        &&& next.transforms@ == self.transforms@ + Self::transforms_moved(other, moved)
        &&& next.styles@ == self.styles@ + other.styles@
        &&& next.resources.patches@ == self.resources.patches@ + self.moved_patches(other)
        &&& next.resources.color_stops@ == self.resources.color_stops@ + other.resources.color_stops@
        &&& next.resources.glyphs@ == self.resources.glyphs@ + other.resources.glyphs@
        &&& next.resources.glyph_runs@ == self.resources.glyph_runs@ + self.moved_runs(other, moved)
        &&& next.resources.normalized_coords@ == self.resources.normalized_coords@ + other.resources.normalized_coords@
        &&& next.n_paths == self.n_paths + other.n_paths
        &&& next.n_path_segments == self.n_path_segments + other.n_path_segments
        &&& next.n_clips == self.n_clips + other.n_clips
        &&& next.n_open_clips == self.n_open_clips + other.n_open_clips
        &&& next.flags == other.flags
        &&& next.coverage_mask == (if other.coverage_mask is Some {
            other.coverage_mask
        } else {
            self.coverage_mask
        })
        &&& next.pending_layer_filter == other.pending_layer_filter
        &&& next.clip_filter_stack@ == self.clip_filter_stack@ + other.clip_filter_stack@
        &&& next.begin_clip_stack@ == self.begin_clip_stack@ + self.moved_clips(other)
        &&& next.layer_filter_effects@ == self.layer_filter_effects@ + other.layer_filter_effects@
    }

    fn append_runs(&mut self, other: &Self, moved: &Option<MovedTransforms>, offsets: StreamOffsets, glyphs_base: usize, coords_base: usize)
        requires
            moved matches Some(m) ==> m.covers(*other),
            forall|i: int|
                0 <= i < other.resources.glyph_runs@.len() ==> (#[trigger] other.resources.glyph_runs@[i]).can_rebase(run_bases(offsets, glyphs_base, coords_base)),
        ensures
            *final(self) == (Encoding { resources: final(self).resources, ..*old(self) }),
            final(self).resources == (Resources {
                glyph_runs: final(self).resources.glyph_runs,
                ..old(self).resources
            }),
            final(self).resources.glyph_runs@.len() == old(self).resources.glyph_runs@.len()
                + other.resources.glyph_runs@.len(),
            forall|i: int|
                0 <= i < old(self).resources.glyph_runs@.len() ==> final(self).resources.glyph_runs@[i]
                    == #[trigger] old(self).resources.glyph_runs@[i],
            forall|i: int|
                0 <= i < other.resources.glyph_runs@.len() ==> final(self).resources.glyph_runs@[old(self).resources.glyph_runs@.len() + i] == ({
                    let run = (#[trigger] other.resources.glyph_runs@[i]).rebased(run_bases(offsets, glyphs_base, coords_base));
                    match moved {
                        Some(m) => GlyphRun { transform: m.run_transforms@[i], ..run },
                        None => run,
                    }
                }),
    {
        let ghost before = self.resources.glyph_runs@;
        let mut i: usize = 0;
        while i < other.resources.glyph_runs.len()
            invariant
                i <= other.resources.glyph_runs.len(),
                moved matches Some(m) ==> m.covers(*other),
                *self == (Encoding { resources: self.resources, ..*old(self) }),
                self.resources == (Resources { glyph_runs: self.resources.glyph_runs, ..old(self).resources }),
                before == old(self).resources.glyph_runs@,
                self.resources.glyph_runs@.len() == before.len() + i,
                forall|k: int|
                    0 <= k < before.len() ==> self.resources.glyph_runs@[k] == #[trigger] before[k],
                forall|k: int|
                    0 <= k < other.resources.glyph_runs@.len() ==> (#[trigger] other.resources.glyph_runs@[k]).can_rebase(run_bases(offsets, glyphs_base, coords_base)),
                forall|k: int|
                    0 <= k < i ==> self.resources.glyph_runs@[before.len() + k] == ({
                        let run = (#[trigger] other.resources.glyph_runs@[k]).rebased(run_bases(offsets, glyphs_base, coords_base));
                        match moved {
                            Some(m) => GlyphRun { transform: m.run_transforms@[k], ..run },
                            None => run,
                        }
                    }),
            decreases other.resources.glyph_runs.len() - i,
        {
            let mut run: GlyphRun = other.resources.glyph_runs[i];
            assert(other.resources.glyph_runs@[i as int].can_rebase(run_bases(offsets, glyphs_base, coords_base)));
            run.glyphs = IndexRange { start: run.glyphs.start + glyphs_base, end: run.glyphs.end + glyphs_base };
            run.normalized_coords = IndexRange {
                start: run.normalized_coords.start + coords_base,
                end: run.normalized_coords.end + coords_base,
            };
            run.stream_offsets.add(&offsets);
            if let Some(m) = moved {
                run.transform = m.run_transforms[i];
            }
            self.resources.glyph_runs.push(run);
            i = i + 1;
        }
    }

    fn append_patches(&mut self, other: &Self, draw_data_base: usize, stops_base: usize, glyph_runs_base: usize)
        requires
            forall|i: int|
                0 <= i < other.resources.patches@.len() ==> (#[trigger] other.resources.patches@[i]).can_rebase(patch_bases(draw_data_base, stops_base, glyph_runs_base)),
        ensures
            *final(self) == (Encoding { resources: final(self).resources, ..*old(self) }),
            final(self).resources == (Resources { patches: final(self).resources.patches, ..old(self).resources }),
            final(self).resources.patches@.len() == old(self).resources.patches@.len() + other.resources.patches@.len(),
            forall|i: int|
                0 <= i < old(self).resources.patches@.len() ==> final(self).resources.patches@[i]
                    == #[trigger] old(self).resources.patches@[i],
            forall|i: int|
                0 <= i < other.resources.patches@.len() ==> final(self).resources.patches@[old(self).resources.patches@.len() + i] == (
                #[trigger] other.resources.patches@[i]).rebased(patch_bases(draw_data_base, stops_base, glyph_runs_base)),
    {
        let ghost before = self.resources.patches@;
        let ghost bases = patch_bases(draw_data_base, stops_base, glyph_runs_base);
        let mut i: usize = 0;
        while i < other.resources.patches.len()
            invariant
                i <= other.resources.patches.len(),
                bases == (patch_bases(draw_data_base, stops_base, glyph_runs_base)),
                *self == (Encoding { resources: self.resources, ..*old(self) }),
                self.resources == (Resources { patches: self.resources.patches, ..old(self).resources }),
                before == old(self).resources.patches@,
                self.resources.patches@.len() == before.len() + i,
                forall|k: int| 0 <= k < before.len() ==> self.resources.patches@[k] == #[trigger] before[k],
                forall|k: int|
                    0 <= k < other.resources.patches@.len() ==> (#[trigger] other.resources.patches@[k]).can_rebase(bases),
                forall|k: int|
                    0 <= k < i ==> self.resources.patches@[before.len() + k] == (
                    #[trigger] other.resources.patches@[k]).rebased(bases),
            decreases other.resources.patches.len() - i,
        {
            assert(other.resources.patches@[i as int].can_rebase(bases));
            let patch: Patch = match other.resources.patches[i] {
                Patch::Ramp { draw_data_offset, stops, extend } => Patch::Ramp {
                    draw_data_offset: draw_data_offset + draw_data_base,
                    stops: IndexRange { start: stops.start + stops_base, end: stops.end + stops_base },
                    extend,
                },
                Patch::GlyphRun { index } => Patch::GlyphRun { index: index + glyph_runs_base },
                Patch::Image { image, draw_data_offset } => Patch::Image {
                    image,
                    draw_data_offset: draw_data_offset + draw_data_base,
                },
            };
            self.resources.patches.push(patch);
            i = i + 1;
        }
    }

    fn append_clips(&mut self, other: &Self, words: usize)
        requires
            forall|i: int|
                0 <= i < other.begin_clip_stack@.len() ==> (#[trigger] other.begin_clip_stack@[i]).layer_idx_slot + words
                    <= usize::MAX,
        ensures
            *final(self) == (Encoding { begin_clip_stack: final(self).begin_clip_stack, ..*old(self) }),
            final(self).begin_clip_stack@ == old(self).begin_clip_stack@ + other.begin_clip_stack@.map_values(
                |c: OpenClip| c.rebased(words as int),
            ),
    {
        let ghost before = self.begin_clip_stack@;
        let ghost moved = other.begin_clip_stack@.map_values(|c: OpenClip| c.rebased(words as int));
        let mut i: usize = 0;
        while i < other.begin_clip_stack.len()
            invariant
                i <= other.begin_clip_stack.len(),
                moved == other.begin_clip_stack@.map_values(|c: OpenClip| c.rebased(words as int)),
                *self == (Encoding { begin_clip_stack: self.begin_clip_stack, ..*old(self) }),
                before == old(self).begin_clip_stack@,
                self.begin_clip_stack@ == before + moved.take(i as int),
                forall|k: int|
                    0 <= k < other.begin_clip_stack@.len() ==> (#[trigger] other.begin_clip_stack@[k]).layer_idx_slot + words
                        <= usize::MAX,
            decreases other.begin_clip_stack.len() - i,
        {
            let clip: OpenClip = other.begin_clip_stack[i];
            self.begin_clip_stack.push(
                OpenClip { parameters: clip.parameters, layer_idx_slot: clip.layer_idx_slot + words },
            );
            assert(moved.take(i as int + 1) =~= moved.take(i as int).push(moved[i as int]));
            i = i + 1;
        }
        assert(moved.take(moved.len() as int) =~= moved);
    }

    /// Appends another encoding to this one. Where the other encoding is transformed,
    /// `moved` holds its transforms, each multiplied by that transform.
    pub fn append(&mut self, other: &Self, moved: &Option<MovedTransforms>)
        requires
            old(self).can_append(*other),
            moved matches Some(m) ==> m.covers(*other),
        ensures
            old(self).appended(*final(self), *other, *moved),
            old(self).wf() && other.wf() ==> final(self).wf(),
    {
        let offsets: StreamOffsets = self.stream_offsets();
        let stops_base: usize = self.resources.color_stops.len();
        let glyph_runs_base: usize = self.resources.glyph_runs.len();
        let glyphs_base: usize = self.resources.glyphs.len();
        let coords_base: usize = self.resources.normalized_coords.len();
        let ghost was = *self;
        let ghost bases = was.bases();
        append_all(&mut self.resources.glyphs, other.resources.glyphs.as_slice());
        append_all(&mut self.resources.normalized_coords, other.resources.normalized_coords.as_slice());
        proof {
            assert forall|i: int| 0 <= i < other.resources.glyph_runs@.len() implies (
            #[trigger] other.resources.glyph_runs@[i]).can_rebase(run_bases(offsets, glyphs_base, coords_base)) by {
                assert(other.resources.glyph_runs@[i].can_rebase(bases));
            }
            assert forall|i: int| 0 <= i < other.resources.patches@.len() implies (
            #[trigger] other.resources.patches@[i]).can_rebase(patch_bases(offsets.draw_data, stops_base, glyph_runs_base)) by {
                assert(other.resources.patches@[i].can_rebase(bases));
            }
        }
        self.append_runs(other, moved, offsets, glyphs_base, coords_base);
        self.append_patches(other, offsets.draw_data, stops_base, glyph_runs_base);
        append_all(&mut self.resources.color_stops, other.resources.color_stops.as_slice());
        append_all(&mut self.path_tags, other.path_tags.as_slice());
        append_all(&mut self.path_data, other.path_data.as_slice());
        append_all(&mut self.draw_tags, other.draw_tags.as_slice());
        append_all(&mut self.draw_data, other.draw_data.as_slice());
        self.n_paths = self.n_paths + other.n_paths;
        self.n_path_segments = self.n_path_segments + other.n_path_segments;
        self.n_clips = self.n_clips + other.n_clips;
        self.n_open_clips = self.n_open_clips + other.n_open_clips;
        self.flags = other.flags;
        if let Some(mask) = &other.coverage_mask {
            self.coverage_mask = Some(mask.clone());
        }
        self.pending_layer_filter = other.pending_layer_filter;
        append_all(&mut self.clip_filter_stack, other.clip_filter_stack.as_slice());
        self.append_clips(other, offsets.draw_data);
        append_all(&mut self.layer_filter_effects, other.layer_filter_effects.as_slice());
        match moved {
            Some(m) => append_all(&mut self.transforms, m.transforms.as_slice()),
            None => append_all(&mut self.transforms, other.transforms.as_slice()),
        }
        append_all(&mut self.styles, other.styles.as_slice());
        proof {
            assert(self.resources.glyph_runs@ =~= was.resources.glyph_runs@ + was.moved_runs(*other, *moved)) by {
                assert forall|i: int| 0 <= i < self.resources.glyph_runs@.len() implies self.resources.glyph_runs@[i] == (
                was.resources.glyph_runs@ + was.moved_runs(*other, *moved))[i] by {
                    if i < was.resources.glyph_runs@.len() {
                        assert(self.resources.glyph_runs@[i] == was.resources.glyph_runs@[i]);
                    } else {
                        let k = i - was.resources.glyph_runs@.len();
                        let run = other.resources.glyph_runs@[k];
                        assert(self.resources.glyph_runs@[was.resources.glyph_runs@.len() + k]
                            == self.resources.glyph_runs@[i]);
                    }
                }
            }
            assert(self.resources.patches@ =~= was.resources.patches@ + was.moved_patches(*other)) by {
                assert forall|i: int| 0 <= i < self.resources.patches@.len() implies self.resources.patches@[i] == (
                was.resources.patches@ + was.moved_patches(*other))[i] by {
                    if i < was.resources.patches@.len() {
                        assert(self.resources.patches@[i] == was.resources.patches@[i]);
                    } else {
                        let k = i - was.resources.patches@.len();
                        let patch = other.resources.patches@[k];
                        assert(self.resources.patches@[was.resources.patches@.len() + k]
                            == self.resources.patches@[i]);
                    }
                }
            }
            assert(was.moved_clips(*other) =~= other.begin_clip_stack@.map_values(
                |c: OpenClip| c.rebased(offsets.draw_data as int),
            ));
            if was.wf() && other.wf() {
                Self::lemma_append_keeps_wf(was, *self, *other);
            }
        }
    }

    proof fn lemma_append_keeps_wf(was: Encoding, next: Encoding, other: Encoding)
        requires
            was.wf(),
            other.wf(),
            next.draw_tags@ == was.draw_tags@ + other.draw_tags@,
            next.draw_data@ == was.draw_data@ + other.draw_data@,
            next.begin_clip_stack@ == was.begin_clip_stack@ + was.moved_clips(other),
            next.clip_filter_stack@ == was.clip_filter_stack@ + other.clip_filter_stack@,
            next.n_clips == was.n_clips + other.n_clips,
            next.n_open_clips == was.n_open_clips + other.n_open_clips,
            forall|i: int|
                0 <= i < other.begin_clip_stack@.len() ==> (#[trigger] other.begin_clip_stack@[i]).layer_idx_slot
                    + was.draw_data@.len() <= usize::MAX,
        ensures
            next.wf(),
    {
        lemma_join_tags(was.draw_tags@, other.draw_tags@);
        let n = was.begin_clip_stack@.len();
        let clips = next.begin_clip_stack@;
        assert forall|i: int| 0 <= i < clips.len() implies points_at_begin(#[trigger] clips[i], next.draw_data@) by {
            if i < n {
                assert(clips[i] == was.begin_clip_stack@[i]);
                assert(points_at_begin(was.begin_clip_stack@[i], was.draw_data@));
            } else {
                let c = other.begin_clip_stack@[i - n];
                assert(points_at_begin(c, other.draw_data@));
                assert(clips[i] == c.rebased(was.draw_data@.len() as int));
            }
        }
        assert forall|i: int, j: int| 0 <= i < j < clips.len() implies (#[trigger] clips[i]).layer_idx_slot + 3 <= (
        #[trigger] clips[j]).layer_idx_slot by {
            if j < n {
                assert(clips[i] == was.begin_clip_stack@[i] && clips[j] == was.begin_clip_stack@[j]);
            } else {
                let d = other.begin_clip_stack@[j - n];
                assert(points_at_begin(d, other.draw_data@));
                assert(clips[j] == d.rebased(was.draw_data@.len() as int));
                if i < n {
                    assert(clips[i] == was.begin_clip_stack@[i]);
                    assert(points_at_begin(was.begin_clip_stack@[i], was.draw_data@));
                } else {
                    let c = other.begin_clip_stack@[i - n];
                    assert(points_at_begin(c, other.draw_data@));
                    assert(clips[i] == c.rebased(was.draw_data@.len() as int));
                    assert(c.layer_idx_slot + 3 <= d.layer_idx_slot);
                }
            }
        }
    }
}

} // verus!
