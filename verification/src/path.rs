//! Path tags, styles and transforms.
//!
//! Widths and coefficients are held as the bit patterns of 32-bit floats.

use crate::float::{equal, float_eq};
use vstd::prelude::*;

verus! {

/// Path tag representation.
#[derive(Clone, Copy, Debug, Default, PartialEq, Eq, Structural)]
pub struct PathTag(pub u8);

impl PathTag {
    /// Transform marker.
    pub const TRANSFORM: u8 = 0x20;

    /// Path marker.
    pub const PATH: u8 = 0x10;

    /// Style marker.
    pub const STYLE: u8 = 0x40;
}

/// Packed fill or stroke style.
#[derive(Clone, Copy, Debug, Default, PartialEq, Eq, Structural)]
pub struct Style {
    /// Fill rule, joins, caps and miter limit.
    pub flags_and_miter_limit: u32,
    /// Line width; zero for a fill.
    pub line_width: u32,
}

impl Style {
    /// The same flags, and the same line width as a number.
    pub open spec fn same_style(self, other: Style) -> bool {
        self.flags_and_miter_limit == other.flags_and_miter_limit && equal(self.line_width, other.line_width)
    }

    /// Whether two styles are equal.
    pub fn same(&self, other: &Self) -> (b: bool)
        ensures
            b == self.same_style(*other),
    {
        self.flags_and_miter_limit == other.flags_and_miter_limit && float_eq(self.line_width, other.line_width)
    }
}

/// Affine transform: a 2x2 matrix, by columns, and a translation.
#[derive(Clone, Copy, Debug, Default, PartialEq, Eq, Structural)]
pub struct Transform {
    pub xx: u32,
    pub xy: u32,
    pub yx: u32,
    pub yy: u32,
    pub dx: u32,
    pub dy: u32,
}

impl Transform {
    /// All six coefficients are equal as numbers.
    pub open spec fn same_transform(self, other: Transform) -> bool {
        &&& equal(self.xx, other.xx)
        &&& equal(self.xy, other.xy)
        &&& equal(self.yx, other.yx)
        &&& equal(self.yy, other.yy)
        &&& equal(self.dx, other.dx)
        &&& equal(self.dy, other.dy)
    }

    /// Whether two transforms are equal.
    pub fn same(&self, other: &Self) -> (b: bool)
        ensures
            b == self.same_transform(*other),
    {
        float_eq(self.xx, other.xx) && float_eq(self.xy, other.xy) && float_eq(self.yx, other.yx) && float_eq(
            self.yy,
            other.yy,
        ) && float_eq(self.dx, other.dx) && float_eq(self.dy, other.dy)
    }
}

/// One or more paths as a path encoder leaves them.
#[derive(Debug)]
pub struct PathStreams {
    pub tags: Vec<PathTag>,
    pub data: Vec<u32>,
    /// Number of segments among the tags.
    pub n_segments: u32,
    /// Number of path markers among the tags.
    pub n_paths: u32,
}

} // verus!
