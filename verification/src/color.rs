//! Colors and their 8-bit packing.
//!
//! Components are held as the bit patterns of 32-bit floats.

use crate::float::{is_nan, same_number, ONE_BITS};
use peniko::color::{ColorSpaceTag as Tag, Flags, Missing};
use vstd::prelude::*;

verus! {

/// A color in sRGB with separate alpha: red, green, blue and alpha, each the bit pattern
/// of a 32-bit float.
#[derive(Clone, Copy, Debug)]
pub struct Color {
    pub components: [u32; 4],
}

/// A color in sRGB without alpha: red, green and blue, each the bit pattern of a 32-bit float.
#[derive(Clone, Copy, Debug)]
pub struct OpaqueColor {
    pub components: [u32; 3],
}

/// A color space that is decided at runtime.
#[derive(Clone, Copy, Debug, PartialEq, Eq, Structural)]
pub enum ColorSpaceTag {
    Srgb,
    LinearSrgb,
    Lab,
    Lch,
    Hsl,
    Hwb,
    Oklab,
    Oklch,
    DisplayP3,
    A98Rgb,
    ProphotoRgb,
    Rec2020,
    AcesCg,
    XyzD50,
    XyzD65,
    Aces2065_1,
}

impl ColorSpaceTag {
    /// The components of the space are analogous to red, green and blue.
    pub open spec fn is_rgb_like(self) -> bool {
        !(self is Lab || self is Lch || self is Hsl || self is Hwb || self is Oklab || self is Oklch)
    }
}

/// A color with separate alpha in a space that is decided at runtime: three components of that space
/// and alpha, each the bit pattern of a 32-bit float.
#[derive(Clone, Copy, Debug)]
pub struct DynamicColor {
    pub cs: ColorSpaceTag,
    /// Which of the components are missing.
    pub missing: [bool; 4],
    pub components: [u32; 4],
}

/// A color in sRGB whose red, green and blue have been multiplied by its alpha.
#[derive(Clone, Copy, Debug)]
pub struct PremulColor {
    pub components: [u32; 4],
}

/// The bit pattern of a component of a color that `peniko` has multiplied by the color's alpha.
pub uninterp spec fn times_alpha(component: u32, alpha: u32) -> u32;

/// The byte that `peniko` rounds a component of a premultiplied color to.
pub uninterp spec fn rounded_byte(component: u32) -> u8;

/// The bit pattern of the product of two 32-bit floats, as `peniko` scales an alpha.
pub uninterp spec fn scaled_alpha(alpha: u32, factor: u32) -> u32;

/// The word whose least significant byte is the first of four.
pub open spec fn little_endian(bytes: Seq<u8>) -> u32 {
    (bytes[0] + bytes[1] * 0x100 + bytes[2] * 0x1_0000 + bytes[3] * 0x100_0000) as u32
}

impl Color {
    /// The fully transparent black.
    pub fn transparent() -> (c: Self)
        ensures
            c.components@ == seq![0u32, 0, 0, 0],
    {
        let c = Color { components: [0, 0, 0, 0] };
        assert(c.components@ =~= seq![0u32, 0, 0, 0]);
        c
    }

    /// Packed little-endian RGBA of the premultiplied color, red in the low byte.
    pub open spec fn packed(self) -> u32 {
        let alpha = self.components[3];
        little_endian(
            seq![
                rounded_byte(times_alpha(self.components[0], alpha)),
                rounded_byte(times_alpha(self.components[1], alpha)),
                rounded_byte(times_alpha(self.components[2], alpha)),
                rounded_byte(alpha),
            ],
        )
    }

    /// Premultiplies the color and packs it into a word, red in the low byte.
    pub fn to_premultiplied_u32(self) -> (w: u32)
        ensures
            w == self.packed(),
            self.components[3] == 0 ==> w == 0,
    {
        let c: [u32; 4] = premultiply(self.components);
        assert(0u32 & 0x7fff_ffff == 0) by (bit_vector);
        word_of(premul_to_rgba8(c))
    }

    /// The color with its alpha multiplied by `alpha`.
    pub fn multiply_alpha(self, alpha: u32) -> (c: Self)
        ensures
            c.components[0] == self.components[0],
            c.components[1] == self.components[1],
            c.components[2] == self.components[2],
            same_number(c.components[3], scaled_alpha(self.components[3], alpha)),
    {
        Color { components: scale_alpha(self.components, alpha) }
    }
}

impl PremulColor {
    /// Packed little-endian RGBA, red in the low byte.
    pub open spec fn packed(self) -> u32 {
        little_endian(
            seq![
                rounded_byte(self.components[0]),
                rounded_byte(self.components[1]),
                rounded_byte(self.components[2]),
                rounded_byte(self.components[3]),
            ],
        )
    }

    /// Packs the color into a word, red in the low byte.
    pub fn to_u32(self) -> (w: u32)
        ensures
            w == self.packed(),
    {
        word_of(premul_to_rgba8(self.components))
    }
}

impl OpaqueColor {
    /// The color with an alpha of one.
    pub open spec fn spec_opaque(self) -> [u32; 4] {
        [self.components[0], self.components[1], self.components[2], ONE_BITS]
    }

    /// Packed little-endian RGBA, red in the low byte.
    pub open spec fn packed(self) -> u32 {
        (Color { components: self.spec_opaque() }).packed()
    }

    /// Packs the color into a word, red in the low byte.
    pub fn to_u32(self) -> (w: u32)
        ensures
            w == self.packed(),
    {
        let c: [u32; 3] = self.components;
        let color: Color = Color { components: [c[0], c[1], c[2], ONE_BITS] };
        color.to_premultiplied_u32()
    }
}

/// `srgb` are the components in sRGB of a color whose components in `space` are `components`. In sRGB
/// itself nothing changes. From a space that is like RGB, missing components become zero; otherwise
/// alpha stays as it is. What else the conversion does to the components is left open.
pub open spec fn converted(space: ColorSpaceTag, missing: Seq<bool>, components: Seq<u32>, srgb: Seq<u32>) -> bool {
    if space is Srgb {
        srgb == components
    } else {
        &&& forall|i: int| 0 <= i < 4 && space.is_rgb_like() && missing[i] ==> #[trigger] srgb[i] == 0
        &&& !(space.is_rgb_like() && missing[3]) ==> srgb[3] == components[3]
    }
}

impl DynamicColor {
    /// `srgb` is the color in sRGB.
    pub open spec fn becomes(self, srgb: Color) -> bool {
        converted(self.cs, self.missing@, self.components@, srgb.components@)
    }

    /// `rgba` is the packed premultiplied form of the color in sRGB.
    pub open spec fn packs_into(self, rgba: u32) -> bool {
        exists|srgb: Color| #[trigger] self.becomes(srgb) && rgba == srgb.packed()
    }

    /// `scaled` is the color with its alpha multiplied by `alpha`. A missing alpha stays missing.
    pub open spec fn scaled(self, alpha: u32, scaled: DynamicColor) -> bool {
        &&& scaled.cs == self.cs
        &&& scaled.missing == self.missing
        &&& scaled.components[0] == self.components[0]
        &&& scaled.components[1] == self.components[1]
        &&& scaled.components[2] == self.components[2]
        &&& if self.missing[3] {
            scaled.components[3] == self.components[3]
        } else {
            same_number(scaled.components[3], scaled_alpha(self.components[3], alpha))
        }
    }

    /// Converts the color to sRGB.
    pub fn to_srgb(self) -> (srgb: Color)
        ensures
            self.becomes(srgb),
    {
        Color { components: dynamic_to_srgb(self.cs, self.missing, self.components) }
    }

    /// Converts the color to sRGB, premultiplies it and packs it into a word, red in the low byte.
    pub fn to_premultiplied_u32(self) -> (w: u32)
        ensures
            self.packs_into(w),
            self.components[3] == 0 ==> w == 0,
            self.cs is Srgb ==> w == (Color { components: self.components }).packed(),
    {
        let srgb: Color = self.to_srgb();
        assert(self.becomes(srgb));
        srgb.to_premultiplied_u32()
    }

    /// The color with its alpha multiplied by `alpha`. Where alpha is missing, the color is
    /// unchanged.
    pub fn multiply_alpha(self, alpha: u32) -> (c: Self)
        ensures
            self.scaled(alpha, c),
    {
        if self.missing[3] {
            self
        } else {
            DynamicColor { components: scale_alpha(self.components, alpha), ..self }
        }
    }
}

/// A color that is in sRGB already is packed exactly as it is.
pub proof fn srgb_packs_as_it_is(color: DynamicColor, rgba: u32)
    requires
        color.cs is Srgb,
    ensures
        color.packs_into(rgba) <==> rgba == (Color { components: color.components }).packed(),
{
    assert(color.becomes(Color { components: color.components }));
}

fn word_of(bytes: [u8; 4]) -> (w: u32)
    ensures
        w == little_endian(bytes@),
{
    (bytes[0] as u32) + (bytes[1] as u32) * 0x100 + (bytes[2] as u32) * 0x1_0000 + (bytes[3] as u32) * 0x100_0000
}

/// The pattern is that of a zero, or of "not a number".
pub open spec fn zero_or_nan(bits: u32) -> bool {
    bits & 0x7fff_ffff == 0 || is_nan(bits)
}

/// `AlphaColor::premultiply` of `peniko::color`, on an sRGB color. Alpha stays as it is; each of the
/// other components is the product of the component and alpha. Where a product is not a number, which
/// of its patterns comes out is left open. A product with an alpha of zero is zero or not a number.
#[verifier::external_body]
fn premultiply(components: [u32; 4]) -> (c: [u32; 4])
    ensures
        forall|i: int| 0 <= i < 3 ==> same_number(#[trigger] c[i], times_alpha(components[i], components[3])),
        c[3] == components[3],
        components[3] == 0 ==> zero_or_nan(c[0]) && zero_or_nan(c[1]) && zero_or_nan(c[2]),
{
    bytemuck::cast(
        peniko::color::AlphaColor::<peniko::color::Srgb>::new(bytemuck::cast(components)).premultiply().components,
    )
}

/// `DynamicColor::to_alpha_color` of `peniko::color`, to sRGB, on a color in `space`. A color in
/// sRGB comes back as it is. Of a color in another space, missing components become zero where the
/// space is like RGB, and an alpha that does not become zero is kept. The other components go through
/// functions whose precision is up to the machine, so nothing is said of them.
#[verifier::external_body]
fn dynamic_to_srgb(space: ColorSpaceTag, missing: [bool; 4], components: [u32; 4]) -> (srgb: [u32; 4])
    ensures
        converted(space, missing@, components@, srgb@),
{
    let spaces = [
        Tag::Srgb, Tag::LinearSrgb, Tag::Lab, Tag::Lch, Tag::Hsl, Tag::Hwb, Tag::Oklab, Tag::Oklch, Tag::DisplayP3,
        Tag::A98Rgb, Tag::ProphotoRgb, Tag::Rec2020, Tag::AcesCg, Tag::XyzD50, Tag::XyzD65, Tag::Aces2065_1,
    ];
    let bit = |i: usize| [Missing::EMPTY, Missing::single(i)][missing[i] as usize];
    let flags = Flags::from_missing(bit(0) | bit(1) | bit(2) | bit(3));
    let cs = spaces[space as usize];
    let color = peniko::color::DynamicColor { cs, flags, components: bytemuck::cast(components) };
    bytemuck::cast(color.to_alpha_color::<peniko::color::Srgb>().components)
}

/// `PremulColor::to_rgba8` of `peniko::color`, on an sRGB color. Each byte, in the order red, green,
/// blue, alpha, is a function of its component, and the same for all patterns that are not a number.
/// A component that is zero or not a number becomes zero.
#[verifier::external_body]
fn premul_to_rgba8(components: [u32; 4]) -> (bytes: [u8; 4])
    ensures
        forall|i: int, bits: u32|
            0 <= i < 4 && same_number(components[i], bits) ==> #[trigger] bytes[i] == #[trigger] rounded_byte(bits),
        forall|i: int| 0 <= i < 4 && zero_or_nan(components[i]) ==> #[trigger] bytes[i] == 0,
{
    peniko::color::PremulColor::<peniko::color::Srgb>::new(bytemuck::cast(components))
        .to_rgba8()
        .to_u8_array()
}

/// `AlphaColor::multiply_alpha` of `peniko::color`, on an sRGB color. The first three
/// components stay as they are; the fourth is the product of alpha and factor. Where the
/// product is not a number, which of its patterns comes out is left open.
#[verifier::external_body]
fn scale_alpha(components: [u32; 4], factor: u32) -> (scaled: [u32; 4])
    ensures
        scaled[0] == components[0],
        scaled[1] == components[1],
        scaled[2] == components[2],
        same_number(scaled[3], scaled_alpha(components[3], factor)),
{
    bytemuck::cast(
        peniko::color::AlphaColor::<peniko::color::Srgb>::new(bytemuck::cast(components))
            .multiply_alpha(bytemuck::cast(factor))
            .components,
    )
}

} // verus!
