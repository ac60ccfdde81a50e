//! Layout of the packed scene and of the elements of the pipeline buffers.
//!
//! Coordinates that the GPU stages read as 32-bit floats are held as their bit patterns.

use vstd::prelude::*;

verus! {

/// Layout of the packed scene: the number of objects of each kind, and the word
/// offset at which each stream starts.
#[derive(Clone, Copy, Debug, Default, PartialEq, Eq, Structural)]
pub struct Layout {
    /// Number of draw objects.
    pub n_draw_objects: u32,
    /// Number of paths.
    pub n_paths: u32,
    /// Number of clips.
    pub n_clips: u32,
    /// Start of binning data.
    pub bin_data_start: u32,
    /// Start of path tag stream.
    pub path_tag_base: u32,
    /// Start of path data stream.
    pub path_data_base: u32,
    /// Start of draw tag stream.
    pub draw_tag_base: u32,
    /// Start of draw data stream.
    pub draw_data_base: u32,
    /// Start of transform stream.
    pub transform_base: u32,
    /// Start of style stream.
    pub style_base: u32,
}

impl Layout {
    /// Number of path tags: one byte each, from the tag base up to the data base.
    pub open spec fn spec_path_tags_size(self) -> int {
        (self.path_data_base - self.path_tag_base) * 4
    }

    /// The path tag stream precedes the path data stream, and its tags can be counted.
    pub open spec fn wf(self) -> bool {
        &&& self.path_tag_base <= self.path_data_base
        &&& self.spec_path_tags_size() <= u32::MAX
    }

    /// Size of the path tag stream in bytes, which is the number of path tags.
    pub fn path_tags_size(&self) -> (size: u32)
        requires
            self.wf(),
        ensures
            size == self.spec_path_tags_size(),
            4 * self.path_tag_base + size == 4 * self.path_data_base,
    {
        (self.path_data_base - self.path_tag_base) * 4
    }
}

/// Monoid of the path tag stream.
#[derive(Clone, Copy, Debug, Default)]
pub struct PathMonoid {
    pub trans_ix: u32,
    pub pathseg_ix: u32,
    pub pathseg_offset: u32,
    pub style_ix: u32,
    pub path_ix: u32,
}

/// Path bounding box.
#[derive(Clone, Copy, Debug, Default)]
pub struct PathBbox {
    pub x0: i32,
    pub y0: i32,
    pub x1: i32,
    pub y1: i32,
    pub draw_flags: u32,
    pub trans_ix: u32,
}

/// Tile-space bounding box of a path, and the index of its first tile.
#[derive(Clone, Copy, Debug, Default)]
pub struct Path {
    pub bbox: [u32; 4],
    pub tiles: u32,
    pub padding: [u32; 3],
}

/// One tile of a path: winding number at its left edge, and its segments.
#[derive(Clone, Copy, Debug, Default, PartialEq, Eq, Structural)]
pub struct Tile {
    pub backdrop: i32,
    pub segment_count_or_ix: u32,
}

/// Line segment of a flattened path.
#[derive(Clone, Copy, Debug, Default)]
pub struct LineSoup {
    pub path_ix: u32,
    pub padding: u32,
    pub p0: [u32; 2],
    pub p1: [u32; 2],
}

/// Line segment clipped to one tile.
#[derive(Clone, Copy, Debug, Default)]
pub struct PathSegment {
    pub point0: [u32; 2],
    pub point1: [u32; 2],
    pub y_edge: u32,
    pub padding: u32,
}

/// Segment counts within a tile.
#[derive(Clone, Copy, Debug, Default)]
pub struct SegmentCount {
    pub line_ix: u32,
    pub counts: u32,
}

/// Clip stack operation.
#[derive(Clone, Copy, Debug, Default)]
pub struct Clip {
    pub ix: u32,
    pub path_ix: i32,
}

/// Clip stack element.
#[derive(Clone, Copy, Debug, Default)]
pub struct ClipElement {
    pub parent_ix: u32,
    pub padding: [u32; 3],
    pub bbox: [u32; 4],
}

/// Bicyclic semigroup of clip stack operations.
#[derive(Clone, Copy, Debug, Default)]
pub struct ClipBic {
    pub a: u32,
    pub b: u32,
}

/// Clip bounding box.
#[derive(Clone, Copy, Debug, Default)]
pub struct ClipBbox {
    pub bbox: [u32; 4],
}

/// Draw object bounding box.
#[derive(Clone, Copy, Debug, Default)]
pub struct DrawBbox {
    pub bbox: [u32; 4],
}

/// Binning header.
#[derive(Clone, Copy, Debug, Default)]
pub struct BinHeader {
    pub element_count: u32,
    pub chunk_offset: u32,
}

/// Element of a typed GPU buffer.
pub trait Element: Sized {
    /// Bytes from one element to the next.
    spec fn spec_stride() -> u32;

    fn stride() -> (s: u32)
        ensures
            s == Self::spec_stride(),
            s > 0,
    ;
}

impl Element for u32 {
    open spec fn spec_stride() -> u32 {
        4
    }

    fn stride() -> (s: u32) {
        4
    }
}

impl Element for PathMonoid {
    open spec fn spec_stride() -> u32 {
        20
    }

    fn stride() -> (s: u32) {
        20
    }
}

impl Element for PathBbox {
    open spec fn spec_stride() -> u32 {
        24
    }

    fn stride() -> (s: u32) {
        24
    }
}

impl Element for Path {
    open spec fn spec_stride() -> u32 {
        32
    }

    fn stride() -> (s: u32) {
        32
    }
}

impl Element for Tile {
    open spec fn spec_stride() -> u32 {
        8
    }

    fn stride() -> (s: u32) {
        8
    }
}

impl Element for LineSoup {
    open spec fn spec_stride() -> u32 {
        24
    }

    fn stride() -> (s: u32) {
        24
    }
}

impl Element for PathSegment {
    open spec fn spec_stride() -> u32 {
        24
    }

    fn stride() -> (s: u32) {
        24
    }
}

impl Element for SegmentCount {
    open spec fn spec_stride() -> u32 {
        8
    }

    fn stride() -> (s: u32) {
        8
    }
}

impl Element for Clip {
    open spec fn spec_stride() -> u32 {
        8
    }

    fn stride() -> (s: u32) {
        8
    }
}

impl Element for ClipElement {
    open spec fn spec_stride() -> u32 {
        32
    }

    fn stride() -> (s: u32) {
        32
    }
}

impl Element for ClipBic {
    open spec fn spec_stride() -> u32 {
        8
    }

    fn stride() -> (s: u32) {
        8
    }
}

impl Element for ClipBbox {
    open spec fn spec_stride() -> u32 {
        16
    }

    fn stride() -> (s: u32) {
        16
    }
}

impl Element for DrawBbox {
    open spec fn spec_stride() -> u32 {
        16
    }

    fn stride() -> (s: u32) {
        16
    }
}

impl Element for BinHeader {
    open spec fn spec_stride() -> u32 {
        8
    }

    fn stride() -> (s: u32) {
        8
    }
}

} // verus!
