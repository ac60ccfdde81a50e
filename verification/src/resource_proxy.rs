//! Shared types for shader binding metadata.

use vstd::prelude::*;

verus! {

/// Shader entry index in the renderer's pipeline table (matches shader entry-point order).
#[derive(Clone, Copy, Debug, Default, PartialEq, Eq, Hash, Structural)]
pub struct ShaderId(pub usize);

/// Pixel format of an image.
#[derive(Clone, Copy, Debug, PartialEq, Eq, Structural)]
pub enum ImageFormat {
    Rgba8,
    Bgra8,
}

impl ImageFormat {
    /// The number of the format in packed draw data.
    pub open spec fn number(self) -> u32 {
        match self {
            ImageFormat::Rgba8 => 0,
            ImageFormat::Bgra8 => 1,
        }
    }

    pub fn as_u32(self) -> (n: u32)
        ensures
            n == self.number(),
    {
        match self {
            ImageFormat::Rgba8 => 0,
            ImageFormat::Bgra8 => 1,
        }
    }
}

/// Format of a texture.
#[derive(Clone, Copy, Debug, PartialEq, Eq, Structural)]
pub enum TextureFormat {
    /// Single-channel 8-bit unsigned normalized (red only)
    R8Unorm,
    /// Two-channel 8-bit unsigned normalized (red + green)
    Rg8Unorm,
    /// 8-bit RGBA, sRGB color space
    Rgba8UnormSrgb,
    /// 8-bit RGBA, linear color space
    Rgba8Unorm,
    /// 8-bit BGRA, sRGB color space
    Bgra8UnormSrgb,
    /// 8-bit BGRA, linear color space
    Bgra8Unorm,
    /// 16-bit RGBA float
    Rgba16Float,
    /// 32-bit RGBA float
    Rgba32Float,
}

/// How shaders reach the texels of a texture.
#[derive(Clone, Copy, Debug, PartialEq, Eq, Structural)]
pub enum TextureKind {
    /// Sampled with interpolation.
    Interpolated,
    /// Read and written texel by texel.
    Direct,
    /// Read and written texel by texel, and sampled with interpolation.
    DirectInterpolated,
}

/// The copies that a texture takes part in.
#[derive(Clone, Copy, Debug, PartialEq, Eq, Structural)]
pub struct TextureFlags {
    /// It can be copied to.
    pub copy_dst: bool,
    /// It can be copied from.
    pub copy_src: bool,
}

/// A texture that is asked of a pool.
#[derive(Clone, Copy, Debug, PartialEq, Eq, Structural)]
pub struct TextureRequest {
    pub width: u32,
    pub height: u32,
    pub format: TextureFormat,
    pub kind: TextureKind,
    pub flags: TextureFlags,
}

impl TextureRequest {
    /// A texture that is sampled: filled by copies, and copied from where `copy_src` is set.
    pub open spec fn sampled(width: u32, height: u32, copy_src: bool) -> Self {
        TextureRequest {
            width,
            height,
            format: TextureFormat::Rgba8Unorm,
            kind: TextureKind::Interpolated,
            flags: TextureFlags { copy_dst: true, copy_src },
        }
    }

    /// A texture that a frame is rendered to.
    pub open spec fn target(width: u32, height: u32, format: TextureFormat, kind: TextureKind) -> Self {
        TextureRequest { width, height, format, kind, flags: TextureFlags { copy_dst: true, copy_src: true } }
    }
}

/// The type of resource that will be bound to a slot in a shader.
#[derive(Clone, Copy, Debug, PartialEq, Eq, Structural)]
pub enum BindType {
    /// A storage buffer with read/write access.
    Buffer,
    /// A storage buffer with read only access.
    BufReadOnly,
    /// A small storage buffer to be used as uniforms.
    Uniform,
    /// A storage image.
    Image(ImageFormat),
    /// A storage image with read only access.
    ImageRead(ImageFormat),
    /// A hardware sampler.
    Sampler,
}

/// How a dispatch touches a resource that is bound to it.
#[derive(Clone, Copy, Debug, PartialEq, Eq, Structural)]
pub enum NodeAccess {
    Read,
    Write,
    ReadWrite,
}

impl BindType {
    /// Read/write bindings may be written; all others are only read.
    pub open spec fn access(self) -> NodeAccess {
        match self {
            BindType::Buffer | BindType::Image(_) => NodeAccess::ReadWrite,
            _ => NodeAccess::Read,
        }
    }
}

/// The access that a dispatch declares for a resource bound as `bt`.
pub fn bind_type_to_node_access(bt: BindType) -> (a: NodeAccess)
    ensures
        a == bt.access(),
{
    match bt {
        BindType::Buffer | BindType::Image(_) => NodeAccess::ReadWrite,
        BindType::BufReadOnly | BindType::Uniform | BindType::ImageRead(_) => NodeAccess::Read,
        BindType::Sampler => NodeAccess::Read,
    }
}

} // verus!
