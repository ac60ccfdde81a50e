//! Filter primitives for multi-pass compositing (blur, shadow, etc.).
//!
//! GPU scheduling applies the layer filter effects of an encoding after the fine rasterizer:
//! each entry is processed in order on that layer's snapshot texture, then composited back
//! onto the main output.
//!
//! Distances and deviations are held as the bit patterns of 32-bit floats.

use crate::color::PremulColor;
use crate::float::{equal, float_eq};
use crate::layout::Element;
use vstd::prelude::*;

verus! {

/// Edge handling for filters that sample outside the layer bounds.
#[derive(Clone, Copy, Debug, PartialEq, Eq, Structural)]
pub enum FilterEdgeMode {
    NoEdge,
    Duplicate,
    Wrap,
    Mirror,
}

/// One filter primitive (single-primitive graphs only).
#[derive(Clone, Copy, Debug)]
pub enum FilterPrimitive {
    Flood {
        color: PremulColor,
        /// Pixel-coordinate bounding rect `[x0, y0, x1, y1]` that constrains the flood.
        ///
        /// The flood shader only writes within this rect; pixels outside are copied
        /// unchanged. Use `[0, 0, u32::MAX, u32::MAX]` to flood the entire frame.
        clip_rect: [u32; 4],
    },
    GaussianBlur { std_dev: u32, edge_mode: FilterEdgeMode },
    DropShadow { dx: u32, dy: u32, std_dev: u32, color: PremulColor, edge_mode: FilterEdgeMode },
    Offset { dx: u32, dy: u32 },
}

/// A filter graph (single-primitive only).
#[derive(Clone, Copy, Debug)]
pub struct Filter(pub FilterPrimitive);

/// One filtered layer: primitive to run after fine, plus layer compositing parameters.
#[derive(Clone, Copy, Debug)]
pub struct LayerFilterEffect {
    pub primitive: FilterPrimitive,
    /// Packed blend of the layer (`mix << 8 | compose`).
    pub layer_blend: u32,
    pub layer_alpha: u32,
    /// Index into per-layer filter textures (0..N-1), assigned when the layer ends.
    pub layer_index: u32,
    /// True when this filter layer is enclosed by another filter layer.
    ///
    /// For nested drop-shadow layers the shadow must be rendered without including the
    /// source foreground pixels in the output: the inner layer's filtered result
    /// is composited on top separately. Non-nested (standalone) filters are unaffected.
    pub is_nested: bool,
}

/// GPU uniform for simple filter compute passes.
#[derive(Clone, Copy, Debug, Default, PartialEq, Eq, Structural)]
pub struct FilterUniform {
    /// Image width in pixels.
    pub width: u32,
    /// Image height in pixels.
    pub height: u32,
    /// `FilterEdgeMode` as `u32`.
    pub edge_mode: u32,
    /// Pass: `0` = horizontal blur, `1` = vertical blur, `2` = offset, `3` = flood, `4` = drop shadow.
    pub pass_kind: u32,
    pub std_dev: u32,
    pub dx: u32,
    pub dy: u32,
    /// Packed premultiplied RGBA.
    pub color: u32,
    pub pad: u32,
}

impl Element for FilterUniform {
    open spec fn spec_stride() -> u32 {
        36
    }

    fn stride() -> (s: u32) {
        36
    }
}

impl FilterEdgeMode {
    /// The number of the mode in a filter uniform.
    pub open spec fn number(self) -> u32 {
        match self {
            FilterEdgeMode::NoEdge => 0,
            FilterEdgeMode::Duplicate => 1,
            FilterEdgeMode::Wrap => 2,
            FilterEdgeMode::Mirror => 3,
        }
    }

    pub fn as_u32(self) -> (n: u32)
        ensures
            n == self.number(),
    {
        match self {
            FilterEdgeMode::NoEdge => 0,
            FilterEdgeMode::Duplicate => 1,
            FilterEdgeMode::Wrap => 2,
            FilterEdgeMode::Mirror => 3,
        }
    }
}

/// A pass over `width` by `height` pixels with nothing else to say.
pub open spec fn plain_pass(width: u32, height: u32, pass_kind: u32) -> FilterUniform {
    FilterUniform { width, height, edge_mode: 0, pass_kind, std_dev: 0, dx: 0, dy: 0, color: 0, pad: 0 }
}

impl FilterUniform {
    /// Builds params for a separable Gaussian blur pass (`pass_kind` 0 or 1).
    pub fn gaussian_blur(width: u32, height: u32, horizontal: bool, std_dev: u32, edge: FilterEdgeMode) -> (u: Self)
        ensures
            u == (FilterUniform {
                std_dev,
                edge_mode: edge.number(),
                ..plain_pass(width, height, if horizontal { 0 } else { 1 })
            }),
            u.width == width && u.height == height,
            u.pass_kind == 0 <==> horizontal,
            u.pass_kind <= 1,
            u.std_dev == std_dev && u.edge_mode == edge.number(),
    {
        FilterUniform {
            width,
            height,
            edge_mode: edge.as_u32(),
            pass_kind: if horizontal {
                0
            } else {
                1
            },
            std_dev,
            dx: 0,
            dy: 0,
            color: 0,
            pad: 0,
        }
    }

    /// Offset pass (`pass_kind` 2).
    pub fn offset(width: u32, height: u32, dx: u32, dy: u32, edge: FilterEdgeMode) -> (u: Self)
        ensures
            u == (FilterUniform { dx, dy, edge_mode: edge.number(), ..plain_pass(width, height, 2) }),
            u.width == width && u.height == height,
            u.pass_kind == 2 && u.dx == dx && u.dy == dy && u.edge_mode == edge.number(),
    {
        FilterUniform {
            width,
            height,
            edge_mode: edge.as_u32(),
            pass_kind: 2,
            std_dev: 0,
            dx,
            dy,
            color: 0,
            pad: 0,
        }
    }

    /// Flood fill (`pass_kind` 3).
    ///
    /// `clip` is `[x0, y0, x1, y1]` in pixels. The shader only floods within that rect;
    /// pixels outside are copied unchanged. Pass `[0, 0, width, height]` to
    /// flood the full frame. The four clip values are packed into the otherwise-unused
    /// `edge_mode`, `std_dev`, `dx`, `dy` fields so the GPU struct layout does not change.
    pub fn flood(width: u32, height: u32, color_rgba: u32, clip: [u32; 4]) -> (u: Self)
        ensures
            u == (FilterUniform {
                edge_mode: clip[0],
                std_dev: clip[1],
                dx: clip[2],
                dy: clip[3],
                color: color_rgba,
                ..plain_pass(width, height, 3)
            }),
            u.width == width && u.height == height,
            u.pass_kind == 3 && u.color == color_rgba,
            u.edge_mode == clip@[0] && u.std_dev == clip@[1] && u.dx == clip@[2] && u.dy == clip@[3],
    {
        FilterUniform {
            width,
            height,
            edge_mode: clip[0],
            pass_kind: 3,
            std_dev: clip[1],
            dx: clip[2],
            dy: clip[3],
            color: color_rgba,
            pad: 0,
        }
    }

    /// Drop shadow composite (`pass_kind` 4): blurred, colored shadow under the source.
    pub fn drop_shadow(
        width: u32,
        height: u32,
        dx: u32,
        dy: u32,
        std_dev: u32,
        shadow_rgba: u32,
        edge: FilterEdgeMode,
    ) -> (u: Self)
        ensures
            u == (FilterUniform {
                edge_mode: edge.number(),
                std_dev,
                dx,
                dy,
                color: shadow_rgba,
                ..plain_pass(width, height, 4)
            }),
            u.width == width && u.height == height,
            u.pass_kind == 4 && u.dx == dx && u.dy == dy && u.std_dev == std_dev,
            u.color == shadow_rgba && u.edge_mode == edge.number(),
    {
        FilterUniform {
            width,
            height,
            edge_mode: edge.as_u32(),
            pass_kind: 4,
            std_dev,
            dx,
            dy,
            color: shadow_rgba,
            pad: 0,
        }
    }

    /// Drop shadow for a **nested** filter layer: emits only the shadow pixels (no foreground)
    /// (`pass_kind` 8).
    ///
    /// Used when the drop-shadow layer wraps an inner filter layer whose filtered content is
    /// composited separately on top, so that the inner layer's soft/blurred edges are preserved.
    pub fn drop_shadow_nested(
        width: u32,
        height: u32,
        dx: u32,
        dy: u32,
        std_dev: u32,
        shadow_rgba: u32,
        edge: FilterEdgeMode,
    ) -> (u: Self)
        ensures
            u == (FilterUniform {
                edge_mode: edge.number(),
                std_dev,
                dx,
                dy,
                color: shadow_rgba,
                ..plain_pass(width, height, 8)
            }),
            u.width == width && u.height == height,
            u.pass_kind == 8 && u.dx == dx && u.dy == dy && u.std_dev == std_dev,
            u.color == shadow_rgba && u.edge_mode == edge.number(),
    {
        FilterUniform {
            width,
            height,
            edge_mode: edge.as_u32(),
            pass_kind: 8,
            std_dev,
            dx,
            dy,
            color: shadow_rgba,
            pad: 0,
        }
    }

    fn plain(width: u32, height: u32, pass_kind: u32) -> (u: Self)
        ensures
            u == plain_pass(width, height, pass_kind),
    {
        FilterUniform { width, height, edge_mode: 0, pass_kind, std_dev: 0, dx: 0, dy: 0, color: 0, pad: 0 }
    }

    /// Identity copy (`pass_kind` 5).
    pub fn copy(width: u32, height: u32) -> (u: Self)
        ensures
            u == plain_pass(width, height, 5),
            u.width == width && u.height == height,
            u.pass_kind == 5,
    {
        Self::plain(width, height, 5)
    }

    /// Composite filtered premultiplied layer over straight-alpha output (`pass_kind` 6).
    /// `layer_blend_packed` is `(mix << 8) | compose`.
    pub fn composite_filtered_layer(width: u32, height: u32, layer_blend_packed: u32) -> (u: Self)
        ensures
            u == (FilterUniform { edge_mode: layer_blend_packed, ..plain_pass(width, height, 6) }),
            u.width == width && u.height == height,
            u.pass_kind == 6 && u.edge_mode == layer_blend_packed,
    {
        FilterUniform {
            width,
            height,
            edge_mode: layer_blend_packed,
            pass_kind: 6,
            std_dev: 0,
            dx: 0,
            dy: 0,
            color: 0,
            pad: 0,
        }
    }

    /// Clear RGBA texture to transparent (`pass_kind` 7).
    pub fn clear_transparent(width: u32, height: u32) -> (u: Self)
        ensures
            u == plain_pass(width, height, 7),
            u.width == width && u.height == height,
            u.pass_kind == 7,
    {
        Self::plain(width, height, 7)
    }

    /// 2x downsample: read a source twice as large via hardware bilinear, write at
    /// (width, height) (`pass_kind` 9).
    pub fn downsample(width: u32, height: u32) -> (u: Self)
        ensures
            u == plain_pass(width, height, 9),
            u.width == width && u.height == height,
            u.pass_kind == 9,
    {
        Self::plain(width, height, 9)
    }

    /// 2x upsample: read a source half as large via hardware bilinear, write at
    /// (width, height), overwriting the existing contents (`pass_kind` 11).
    pub fn upsample(width: u32, height: u32) -> (u: Self)
        ensures
            u == plain_pass(width, height, 11),
            u.width == width && u.height == height,
            u.pass_kind == 11,
    {
        Self::plain(width, height, 11)
    }

    /// Shadow composite from a pre-blurred source (`pass_kind` 13).
    ///
    /// Reads the pre-blurred alpha at the offset position, colorises it with
    /// `shadow_rgba`, and composites the shadow under the unblurred foreground.
    pub fn shadow_composite_preblurred(width: u32, height: u32, dx: u32, dy: u32, shadow_rgba: u32) -> (u: Self)
        ensures
            u == (FilterUniform { dx, dy, color: shadow_rgba, ..plain_pass(width, height, 13) }),
            u.width == width && u.height == height,
            u.pass_kind == 13 && u.dx == dx && u.dy == dy && u.color == shadow_rgba,
    {
        FilterUniform {
            width,
            height,
            edge_mode: 0,
            pass_kind: 13,
            std_dev: 0,
            dx,
            dy,
            color: shadow_rgba,
            pad: 0,
        }
    }

    /// Nested shadow composite from a pre-blurred source: shadow only, no foreground
    /// (`pass_kind` 14).
    pub fn shadow_composite_preblurred_nested(width: u32, height: u32, dx: u32, dy: u32, shadow_rgba: u32) -> (u: Self)
        ensures
            u == (FilterUniform { dx, dy, color: shadow_rgba, ..plain_pass(width, height, 14) }),
            u.width == width && u.height == height,
            u.pass_kind == 14 && u.dx == dx && u.dy == dy && u.color == shadow_rgba,
    {
        FilterUniform {
            width,
            height,
            edge_mode: 0,
            pass_kind: 14,
            std_dev: 0,
            dx,
            dy,
            color: shadow_rgba,
            pad: 0,
        }
    }

    /// The uniforms describe the same pass: the whole numbers agree, and so do the
    /// deviation and the offsets as numbers.
    pub open spec fn same_pass(self, other: FilterUniform) -> bool {
        &&& self.width == other.width
        &&& self.height == other.height
        &&& self.edge_mode == other.edge_mode
        &&& self.pass_kind == other.pass_kind
        &&& equal(self.std_dev, other.std_dev)
        &&& equal(self.dx, other.dx)
        &&& equal(self.dy, other.dy)
        &&& self.color == other.color
        &&& self.pad == other.pad
    }

    /// Whether a buffer that holds `self` can serve for `other`.
    pub fn matches(&self, other: &Self) -> (b: bool)
        ensures
            b == self.same_pass(*other),
    {
        self.width == other.width && self.height == other.height && self.edge_mode == other.edge_mode
            && self.pass_kind == other.pass_kind && float_eq(self.std_dev, other.std_dev) && float_eq(self.dx, other.dx)
            && float_eq(self.dy, other.dy) && self.color == other.color && self.pad == other.pad
    }
}

} // verus!
