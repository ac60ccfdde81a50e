//! Draw objects: tags, draw data and the draw monoid.
//!
//! Fields that the GPU reads as 32-bit floats are held as their bit patterns.

use crate::color::{Color, DynamicColor, OpaqueColor, PremulColor};
use crate::float::{equal, float_eq, ONE_BITS};
use crate::layout::Element;
use vstd::prelude::*;

verus! {

/// Draw tag representation.
///
/// Bit 0 marks a clip operation, bits 2 to 4 count the words of draw data, and bits 6 to 9
/// the words of draw info.
#[derive(Clone, Copy, Debug, Default, PartialEq, Eq, Structural)]
pub struct DrawTag(pub u32);

impl DrawTag {
    /// No operation.
    pub const NOP: u32 = 0;

    /// Color fill.
    pub const COLOR: u32 = 0x44;

    /// Linear gradient fill.
    pub const LINEAR_GRADIENT: u32 = 0x114;

    /// Radial gradient fill.
    pub const RADIAL_GRADIENT: u32 = 0x29c;

    /// Sweep gradient fill.
    pub const SWEEP_GRADIENT: u32 = 0x254;

    /// Image fill.
    pub const IMAGE: u32 = 0x28c;

    /// Tinted image fill.
    pub const IMAGE_TINTED: u32 = 0x2d0;

    /// Blurred rounded rectangle.
    pub const BLUR_RECT: u32 = 0x2d4;

    /// Begin layer/clip. The draw data are the two words of a [`DrawBeginClip`] and the
    /// index of the layer's filter, which is filled in when the layer ends.
    pub const BEGIN_CLIP: u32 = 0x4d;

    /// End layer/clip. The draw data repeat the two words of the [`DrawBeginClip`].
    pub const END_CLIP: u32 = 0x09;

    /// End a filter layer. The draw data repeat the two words of the [`DrawBeginClip`],
    /// followed by the index of the layer's filter.
    pub const END_CLIP_FILTER: u32 = 0x0d;

    /// Set per-draw blend mode for subsequent fills (non-isolated blending). The draw data
    /// are one word packed like [`DrawBeginClip::new`].
    pub const SET_BLEND_MODE: u32 = 0x04;
}

impl DrawTag {
    /// Words of draw info that the tag calls for.
    pub open spec fn spec_info_size(self) -> u32 {
        (self.0 >> 6u32) & 0xfu32
    }

    /// Words of draw data that the tag calls for.
    pub open spec fn scene_size(self) -> u32 {
        (self.0 >> 2u32) & 0x7u32
    }

    /// One for a clip operation.
    pub open spec fn clip_size(self) -> u32 {
        self.0 & 1u32
    }

    /// Returns the size of the info buffer (in u32s) used by this tag.
    pub fn info_size(self) -> (n: u32)
        ensures
            n == self.spec_info_size(),
            n <= 15,
    {
        let tag: u32 = self.0;
        assert((tag >> 6u32) & 0xfu32 <= 15) by (bit_vector);
        (tag >> 6) & 0xf
    }
}

/// Each tag counts its own draw data and draw info.
pub proof fn tag_sizes()
    ensures
        DrawTag(DrawTag::NOP).scene_size() == 0,
        DrawTag(DrawTag::COLOR).scene_size() == 1,
        DrawTag(DrawTag::LINEAR_GRADIENT).scene_size() == 5,
        DrawTag(DrawTag::RADIAL_GRADIENT).scene_size() == 7,
        DrawTag(DrawTag::SWEEP_GRADIENT).scene_size() == 5,
        DrawTag(DrawTag::IMAGE).scene_size() == 3,
        DrawTag(DrawTag::IMAGE_TINTED).scene_size() == 4,
        DrawTag(DrawTag::BLUR_RECT).scene_size() == 5,
        DrawTag(DrawTag::BEGIN_CLIP).scene_size() == 3,
        DrawTag(DrawTag::END_CLIP).scene_size() == 2,
        DrawTag(DrawTag::END_CLIP_FILTER).scene_size() == 3,
        DrawTag(DrawTag::SET_BLEND_MODE).scene_size() == 1,
        DrawTag(DrawTag::IMAGE).spec_info_size() == 10,
        DrawTag(DrawTag::IMAGE_TINTED).spec_info_size() == 11,
        DrawTag(DrawTag::BLUR_RECT).spec_info_size() == 11,
        DrawTag(DrawTag::BEGIN_CLIP).clip_size() == 1,
        DrawTag(DrawTag::END_CLIP).clip_size() == 1,
        DrawTag(DrawTag::END_CLIP_FILTER).clip_size() == 1,
        DrawTag(DrawTag::SET_BLEND_MODE).clip_size() == 0,
        DrawTag(DrawTag::COLOR).clip_size() == 0,
        DrawTag(DrawTag::LINEAR_GRADIENT).clip_size() == 0,
        DrawTag(DrawTag::RADIAL_GRADIENT).clip_size() == 0,
        DrawTag(DrawTag::SWEEP_GRADIENT).clip_size() == 0,
        DrawTag(DrawTag::IMAGE).clip_size() == 0,
        DrawTag(DrawTag::BLUR_RECT).clip_size() == 0,
{
    assert((0u32 >> 2u32) & 0x7u32 == 0 && (0x44u32 >> 2u32) & 0x7u32 == 1 && (0x114u32 >> 2u32) & 0x7u32 == 5 && (0x29cu32
        >> 2u32) & 0x7u32 == 7 && (0x254u32 >> 2u32) & 0x7u32 == 5 && (0x28cu32 >> 2u32) & 0x7u32 == 3 && (0x2d0u32
        >> 2u32) & 0x7u32 == 4 && (0x2d4u32 >> 2u32) & 0x7u32 == 5 && (0x4du32 >> 2u32) & 0x7u32 == 3 && (0x09u32
        >> 2u32) & 0x7u32 == 2 && (0x0du32 >> 2u32) & 0x7u32 == 3 && (0x04u32 >> 2u32) & 0x7u32 == 1 && (0x28cu32
        >> 6u32) & 0xfu32 == 10 && (0x2d0u32 >> 6u32) & 0xfu32 == 11 && (0x2d4u32 >> 6u32) & 0xfu32 == 11 && 0x4du32
        & 1u32 == 1 && 0x09u32 & 1u32 == 1 && 0x0du32 & 1u32 == 1 && 0x04u32 & 1u32 == 0 && 0x44u32 & 1u32 == 0
        && 0x114u32 & 1u32 == 0 && 0x29cu32 & 1u32 == 0 && 0x254u32 & 1u32 == 0 && 0x28cu32 & 1u32 == 0 && 0x2d4u32
        & 1u32 == 0) by (bit_vector);
}

/// The first word of each draw info stream entry contains the flags.
///
/// This is not part of the draw object stream but gets used after the draw
/// objects get reduced on the GPU. `0` represents a non-zero fill.
/// `1` represents an even-odd fill.
pub const DRAW_INFO_FLAGS_FILL_RULE_BIT: u32 = 1;

/// Draw data for a solid color.
#[derive(Clone, Copy, Debug, Default, PartialEq, Eq, Structural)]
pub struct DrawColor {
    /// Packed little-endian RGBA premultiplied color with the red component in the low byte, i.e.,
    /// with `r` the least significant byte and `a` the most significant.
    pub rgba: u32,
}

impl From<Color> for DrawColor {
    fn from(color: Color) -> (d: Self)
        ensures
            color.components[3] == 0 ==> d.rgba == 0,
    {
        DrawColor { rgba: color.to_premultiplied_u32() }
    }
}

impl vstd::std_specs::convert::FromSpecImpl<Color> for DrawColor {
    open spec fn obeys_from_spec() -> bool {
        true
    }

    open spec fn from_spec(color: Color) -> Self {
        DrawColor { rgba: color.packed() }
    }
}

impl From<DynamicColor> for DrawColor {
    fn from(color: DynamicColor) -> (d: Self)
        ensures
            color.packs_into(d.rgba),
            color.components[3] == 0 ==> d.rgba == 0,
    {
        DrawColor { rgba: color.to_premultiplied_u32() }
    }
}

impl vstd::std_specs::convert::FromSpecImpl<DynamicColor> for DrawColor {
    open spec fn obeys_from_spec() -> bool {
        false
    }

    /// Colors of other spaces have no one result on every machine.
    open spec fn from_spec(color: DynamicColor) -> Self {
        arbitrary()
    }
}

impl From<OpaqueColor> for DrawColor {
    fn from(color: OpaqueColor) -> (d: Self) {
        DrawColor { rgba: color.to_u32() }
    }
}

impl vstd::std_specs::convert::FromSpecImpl<OpaqueColor> for DrawColor {
    open spec fn obeys_from_spec() -> bool {
        true
    }

    open spec fn from_spec(color: OpaqueColor) -> Self {
        DrawColor { rgba: color.packed() }
    }
}

impl From<PremulColor> for DrawColor {
    fn from(color: PremulColor) -> (d: Self) {
        DrawColor { rgba: color.to_u32() }
    }
}

impl vstd::std_specs::convert::FromSpecImpl<PremulColor> for DrawColor {
    open spec fn obeys_from_spec() -> bool {
        true
    }

    open spec fn from_spec(color: PremulColor) -> Self {
        DrawColor { rgba: color.packed() }
    }
}

/// Draw data for a linear gradient.
#[derive(Clone, Copy, Debug, Default)]
pub struct DrawLinearGradient {
    /// Ramp index.
    pub index: u32,
    /// Start point.
    pub p0: [u32; 2],
    /// End point.
    pub p1: [u32; 2],
}

impl DrawLinearGradient {
    /// The words of the draw data, in order.
    pub open spec fn words(self) -> Seq<u32> {
        seq![self.index, self.p0[0], self.p0[1], self.p1[0], self.p1[1]]
    }
}

/// Draw data for a radial gradient.
#[derive(Clone, Copy, Debug, Default)]
pub struct DrawRadialGradient {
    /// Ramp index.
    pub index: u32,
    /// Start point.
    pub p0: [u32; 2],
    /// End point.
    pub p1: [u32; 2],
    /// Start radius.
    pub r0: u32,
    /// End radius.
    pub r1: u32,
}

impl DrawRadialGradient {
    /// The words of the draw data, in order.
    pub open spec fn words(self) -> Seq<u32> {
        seq![self.index, self.p0[0], self.p0[1], self.p1[0], self.p1[1], self.r0, self.r1]
    }
}

/// Draw data for a sweep gradient.
#[derive(Clone, Copy, Debug, Default)]
pub struct DrawSweepGradient {
    /// Ramp index.
    pub index: u32,
    /// Center point.
    pub p0: [u32; 2],
    /// Normalized start angle.
    pub t0: u32,
    /// Normalized end angle.
    pub t1: u32,
}

impl DrawSweepGradient {
    /// The words of the draw data, in order.
    pub open spec fn words(self) -> Seq<u32> {
        seq![self.index, self.p0[0], self.p0[1], self.t0, self.t1]
    }
}

/// Draw data for an image.
#[derive(Clone, Copy, Debug, Default, PartialEq, Eq, Structural)]
pub struct DrawImage {
    /// Packed atlas coordinates.
    pub xy: u32,
    /// Packed image dimensions.
    pub width_height: u32,
    /// Packed quality, extend mode and 8-bit alpha (bits `qqxxyyaaaaaaaa`), above them the
    /// alpha type and the pixel format of the image.
    pub sample_alpha: u32,
}

impl DrawImage {
    /// The words of the draw data, in order.
    pub open spec fn words(self) -> Seq<u32> {
        seq![self.xy, self.width_height, self.sample_alpha]
    }
}

/// Draw data for a tinted image.
#[derive(Clone, Copy, Debug, Default, PartialEq, Eq, Structural)]
pub struct DrawImageTinted {
    /// Packed atlas coordinates.
    pub xy: u32,
    /// Packed image dimensions.
    pub width_height: u32,
    /// Packed quality, extend mode, tint mode and 8-bit alpha.
    pub sample_alpha: u32,
    /// Premultiplied tint color packed as RGBA8.
    pub tint_rgba: u32,
}

/// How an image tint is applied.
#[derive(Clone, Copy, Debug, PartialEq, Eq, Structural)]
pub enum TintMode {
    /// Replace the source RGB with the tint and use source alpha as coverage.
    AlphaMask,
    /// Component-wise multiply the premultiplied source and tint colors.
    Multiply,
}

impl TintMode {
    /// The number that stands for the mode in packed draw data.
    pub fn as_u32(self) -> (n: u32)
        ensures
            self == TintMode::AlphaMask ==> n == 1,
            self == TintMode::Multiply ==> n == 2,
    {
        match self {
            TintMode::AlphaMask => 1,
            TintMode::Multiply => 2,
        }
    }
}

/// A tint applied to image paints.
#[derive(Clone, Copy, Debug)]
pub struct Tint {
    /// The tint color.
    pub color: Color,
    /// How the tint is applied.
    pub mode: TintMode,
}

impl PartialEq for Tint {
    fn eq(&self, other: &Self) -> (b: bool) {
        let (a, b): ([u32; 4], [u32; 4]) = (self.color.components, other.color.components);
        float_eq(a[0], b[0]) && float_eq(a[1], b[1]) && float_eq(a[2], b[2]) && float_eq(a[3], b[3]) && self.mode
            == other.mode
    }
}

impl vstd::std_specs::cmp::PartialEqSpecImpl for Tint {
    open spec fn obeys_eq_spec() -> bool {
        true
    }

    /// Components are compared as numbers.
    open spec fn eq_spec(&self, other: &Self) -> bool {
        &&& equal(self.color.components[0], other.color.components[0])
        &&& equal(self.color.components[1], other.color.components[1])
        &&& equal(self.color.components[2], other.color.components[2])
        &&& equal(self.color.components[3], other.color.components[3])
        &&& self.mode == other.mode
    }
}

/// Draw data for a blurred rounded rectangle.
#[derive(Clone, Copy, Debug, Default, PartialEq, Eq, Structural)]
pub struct DrawBlurRoundedRect {
    /// Solid color brush.
    pub color: DrawColor,
    /// Rectangle width.
    pub width: u32,
    /// Rectangle height.
    pub height: u32,
    /// Rectangle corner radius.
    pub radius: u32,
    /// Standard deviation of gaussian filter.
    ///
    /// The sign bit encodes invert (`1 - alpha` coverage) for inset box-shadows.
    /// Magnitude is always the non-negative deviation.
    pub std_dev: u32,
}

impl DrawBlurRoundedRect {
    /// The words of the draw data, in order.
    pub open spec fn words(self) -> Seq<u32> {
        seq![self.color.rgba, self.width, self.height, self.radius, self.std_dev]
    }
}

/// How a layer is blended with what lies below it: the numbers of the mixing and of the
/// composition function.
#[derive(Clone, Copy, Debug, Default, PartialEq, Eq, Structural)]
pub struct BlendMode {
    pub mix: u8,
    pub compose: u8,
}

impl BlendMode {
    /// The mixing function in the second byte, the composition function in the first.
    pub open spec fn packed(self) -> u32 {
        (self.mix * 0x100 + self.compose) as u32
    }

    /// Packs the mode into a word.
    pub fn to_u32(self) -> (w: u32)
        ensures
            w == self.packed(),
    {
        let mix: u32 = self.mix as u32;
        let compose: u32 = self.compose as u32;
        assert((mix << 8u32) | compose == mix * 0x100 + compose) by (bit_vector)
            requires
                mix < 0x100,
                compose < 0x100,
        ;
        (mix << 8) | compose
    }
}

/// Draw data for a clip or layer.
#[derive(Clone, Copy, Debug, Default, PartialEq, Eq, Structural)]
pub struct DrawBeginClip {
    /// Blend mode.
    pub blend_mode: u32,
    /// Group alpha.
    pub alpha: u32,
}

impl DrawBeginClip {
    /// The `blend_mode` used to indicate that a layer should be
    /// treated as a luminance mask.
    ///
    /// The least significant 16 bits are reserved for Mix + Compose
    /// combinations.
    pub const LUMINANCE_MASK_BLEND_MODE: u32 = 0x10000;

    /// The `blend_mode` used to indicate that a layer should be
    /// treated as a clip.
    ///
    /// This is equivalent to source-over composition with a mix of 128.
    pub const CLIP_BLEND_MODE: u32 = 0x8003;

    /// The words of the draw data, in order.
    pub open spec fn words(self) -> Seq<u32> {
        seq![self.blend_mode, self.alpha]
    }

    /// Creates new clip draw data for a Porter-Duff blend mode.
    pub fn new(blend_mode: BlendMode, alpha: u32) -> (d: Self)
        ensures
            d == (DrawBeginClip { blend_mode: blend_mode.packed(), alpha }),
            d.blend_mode == 0x100 * blend_mode.mix + blend_mode.compose,
            d.alpha == alpha,
    {
        DrawBeginClip { blend_mode: blend_mode.to_u32(), alpha }
    }

    /// Creates a new clip draw data for a luminance mask.
    pub fn luminance_mask(alpha: u32) -> (d: Self)
        ensures
            d == (DrawBeginClip { blend_mode: Self::LUMINANCE_MASK_BLEND_MODE, alpha }),
            d.blend_mode == 0x10000 && d.alpha == alpha,
    {
        DrawBeginClip { blend_mode: Self::LUMINANCE_MASK_BLEND_MODE, alpha }
    }

    /// Creates the clip draw data for a clip-only layer.
    pub fn clip() -> (d: Self)
        ensures
            d == (DrawBeginClip { blend_mode: Self::CLIP_BLEND_MODE, alpha: ONE_BITS }),
            d.blend_mode == 0x8003 && d.alpha == 0x3f80_0000,
    {
        DrawBeginClip { blend_mode: Self::CLIP_BLEND_MODE, alpha: ONE_BITS }
    }
}

/// No blend mode packs to the number of a luminance mask or of a clip, as long as mixing
/// functions are numbered below 128.
pub proof fn blend_modes_are_distinct(mode: BlendMode)
    requires
        mode.mix < 128,
    ensures
        mode.packed() != DrawBeginClip::LUMINANCE_MASK_BLEND_MODE,
        mode.packed() != DrawBeginClip::CLIP_BLEND_MODE,
{
}

/// Monoid for the draw tag stream.
#[derive(Clone, Copy, Debug, Default, PartialEq, Eq, Structural)]
pub struct DrawMonoid {
    /// The number of paths preceding this draw object.
    pub path_ix: u32,
    /// The number of clip operations preceding this draw object.
    pub clip_ix: u32,
    /// The offset of the encoded draw object in the scene (u32s).
    pub scene_offset: u32,
    /// The offset of the associated info.
    pub info_offset: u32,
}

impl Element for DrawMonoid {
    open spec fn spec_stride() -> u32 {
        16
    }

    fn stride() -> (s: u32) {
        16
    }
}

impl DrawMonoid {
    /// What one tag contributes: a path unless it is a no-operation, its clip operation,
    /// its draw data and its draw info.
    pub open spec fn of_tag(tag: DrawTag) -> DrawMonoid {
        DrawMonoid {
            path_ix: if tag.0 == DrawTag::NOP {
                0
            } else {
                1
            },
            clip_ix: tag.clip_size(),
            scene_offset: tag.scene_size(),
            info_offset: tag.spec_info_size(),
        }
    }

    /// The sum of two contributions can be counted in 32 bits.
    pub open spec fn can_combine(self, other: DrawMonoid) -> bool {
        &&& self.path_ix + other.path_ix <= u32::MAX
        &&& self.clip_ix + other.clip_ix <= u32::MAX
        &&& self.scene_offset + other.scene_offset <= u32::MAX
        &&& self.info_offset + other.info_offset <= u32::MAX
    }

    /// The sum of two contributions.
    pub open spec fn sum(self, other: DrawMonoid) -> DrawMonoid {
        DrawMonoid {
            path_ix: (self.path_ix + other.path_ix) as u32,
            clip_ix: (self.clip_ix + other.clip_ix) as u32,
            scene_offset: (self.scene_offset + other.scene_offset) as u32,
            info_offset: (self.info_offset + other.info_offset) as u32,
        }
    }

    /// The contribution of one draw tag.
    pub fn new(tag: DrawTag) -> (m: Self)
        ensures
            m == Self::of_tag(tag),
    {
        DrawMonoid {
            path_ix: if tag.0 == DrawTag::NOP {
                0
            } else {
                1
            },
            clip_ix: tag.0 & 1,
            scene_offset: (tag.0 >> 2) & 0x7,
            info_offset: (tag.0 >> 6) & 0xf,
        }
    }

    /// Adds two contributions.
    pub fn combine(&self, other: &Self) -> (m: Self)
        requires
            self.can_combine(*other),
        ensures
            m == self.sum(*other),
    {
        DrawMonoid {
            path_ix: self.path_ix + other.path_ix,
            clip_ix: self.clip_ix + other.clip_ix,
            scene_offset: self.scene_offset + other.scene_offset,
            info_offset: self.info_offset + other.info_offset,
        }
    }
}

/// Contributions may be added in any grouping.
pub proof fn combine_is_associative(a: DrawMonoid, b: DrawMonoid, c: DrawMonoid)
    requires
        a.can_combine(b),
        a.sum(b).can_combine(c),
    ensures
        b.can_combine(c),
        a.can_combine(b.sum(c)),
        a.sum(b).sum(c) == a.sum(b.sum(c)),
{
}

/// The contribution of a no-operation changes no sum.
pub proof fn nop_is_identity(m: DrawMonoid)
    ensures
        m.can_combine(DrawMonoid::of_tag(DrawTag(DrawTag::NOP))),
        m.sum(DrawMonoid::of_tag(DrawTag(DrawTag::NOP))) == m,
        DrawMonoid::of_tag(DrawTag(DrawTag::NOP)).sum(m) == m,
{
    assert((0u32 >> 6u32) & 0xfu32 == 0 && (0u32 >> 2u32) & 0x7u32 == 0 && 0u32 & 1u32 == 0) by (bit_vector);
}

} // verus!
