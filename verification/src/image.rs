//! Images and how they are sampled.

use crate::resource_proxy::ImageFormat;
use vstd::prelude::*;

verus! {

/// How a brush continues beyond its bounds.
#[derive(Clone, Copy, Debug, PartialEq, Eq, Structural)]
pub enum Extend {
    /// Repeats the edge color.
    Pad,
    /// Repeats the brush.
    Repeat,
    /// Repeats the brush, mirrored every other time.
    Reflect,
}

impl Extend {
    /// The number of the mode in packed draw data.
    pub open spec fn number(self) -> u32 {
        match self {
            Extend::Pad => 0,
            Extend::Repeat => 1,
            Extend::Reflect => 2,
        }
    }

    pub fn as_u32(self) -> (n: u32)
        ensures
            n == self.number(),
    {
        match self {
            Extend::Pad => 0,
            Extend::Repeat => 1,
            Extend::Reflect => 2,
        }
    }
}

/// Desired quality of image sampling.
#[derive(Clone, Copy, Debug, PartialEq, Eq, Structural)]
pub enum ImageQuality {
    Low,
    Medium,
    High,
}

impl ImageQuality {
    /// The number of the quality in packed draw data.
    pub open spec fn number(self) -> u32 {
        match self {
            ImageQuality::Low => 0,
            ImageQuality::Medium => 1,
            ImageQuality::High => 2,
        }
    }

    pub fn as_u32(self) -> (n: u32)
        ensures
            n == self.number(),
    {
        match self {
            ImageQuality::Low => 0,
            ImageQuality::Medium => 1,
            ImageQuality::High => 2,
        }
    }
}

/// Whether the colors of an image have been multiplied by their alpha.
#[derive(Clone, Copy, Debug, PartialEq, Eq, Structural)]
pub enum ImageAlphaType {
    /// Separate alpha.
    Alpha,
    /// Premultiplied alpha.
    AlphaPremultiplied,
}

impl ImageAlphaType {
    /// The number of the alpha type in packed draw data.
    pub open spec fn number(self) -> u32 {
        match self {
            ImageAlphaType::Alpha => 0,
            ImageAlphaType::AlphaPremultiplied => 1,
        }
    }

    pub fn as_u32(self) -> (n: u32)
        ensures
            n == self.number(),
    {
        match self {
            ImageAlphaType::Alpha => 0,
            ImageAlphaType::AlphaPremultiplied => 1,
        }
    }
}

/// An image by the identity of its pixel data.
#[derive(Clone, Copy, Debug, PartialEq, Eq, Structural)]
pub struct ImageData {
    /// Identity of the pixel data.
    pub id: u64,
    pub format: ImageFormat,
    pub alpha_type: ImageAlphaType,
    pub width: u32,
    pub height: u32,
}

/// Parameters of image sampling.
#[derive(Clone, Copy, Debug, PartialEq, Eq, Structural)]
pub struct ImageSampler {
    /// Extend mode in the horizontal direction.
    pub x_extend: Extend,
    /// Extend mode in the vertical direction.
    pub y_extend: Extend,
    /// Hint for desired rendering quality.
    pub quality: ImageQuality,
    /// Alpha multiplier, from 0 to 255.
    pub alpha: u8,
}

/// Width and height in the upper and lower half of a word, each cut to 16 bits.
pub open spec fn packed_size(width: u32, height: u32) -> u32 {
    ((width % 0x1_0000) * 0x1_0000 + height % 0x1_0000) as u32
}

/// The sampling of an image in one word: alpha in bits 0 to 7, the extend modes in bits 8
/// to 11, the quality in bits 12 and 13, the alpha type in bit 14, the format in bit 15.
pub open spec fn packed_sampling(image: ImageData, sampler: ImageSampler) -> u32 {
    (image.format.number() * 0x8000 + image.alpha_type.number() * 0x4000 + sampler.quality.number() * 0x1000
        + sampler.x_extend.number() * 0x400 + sampler.y_extend.number() * 0x100 + sampler.alpha) as u32
}

/// Packs the size of an image.
pub fn pack_size(width: u32, height: u32) -> (w: u32)
    ensures
        w == packed_size(width, height),
{
    assert((width << 16u32) | (height & 0xffffu32) == (width % 0x1_0000) * 0x1_0000 + height % 0x1_0000) by (bit_vector);
    (width << 16) | (height & 0xffff)
}

/// Packs the sampling of an image.
pub fn pack_sampling(image: &ImageData, sampler: &ImageSampler) -> (w: u32)
    ensures
        w == packed_sampling(*image, *sampler),
{
    let f: u32 = image.format.as_u32();
    let t: u32 = image.alpha_type.as_u32();
    let q: u32 = sampler.quality.as_u32();
    let x: u32 = sampler.x_extend.as_u32();
    let y: u32 = sampler.y_extend.as_u32();
    let a: u32 = sampler.alpha as u32;
    assert((f << 15u32 | t << 14u32 | q << 12u32 | (x << 10u32) | (y << 8u32) | a) == f * 0x8000 + t * 0x4000 + q * 0x1000
        + x * 0x400 + y * 0x100 + a) by (bit_vector)
        requires
            f <= 1,
            t <= 1,
            q <= 2,
            x <= 2,
            y <= 2,
            a <= 255,
    ;
    (f << 15) | (t << 14) | (q << 12) | (x << 10) | (y << 8) | a
}

} // verus!
