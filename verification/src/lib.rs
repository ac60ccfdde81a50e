//! Ekrano is a 2D graphics rendering engine that draws large scenes with compute shaders.
//!
//! This crate is its verified core: the encoding of a scene, the sizing of the buffers, the
//! CPU forms of some stages, and the plans that the GPU back end carries out.

use crate::color::Color;
use vstd::prelude::*;
use vstd::string::*;

pub mod append_laws;
pub mod backdrop;
pub mod brush_laws;
pub mod color;
pub mod config;
pub mod coverage_mask;
pub mod debug_renderer;
pub mod decoration;
pub mod dispatch_dump;
pub mod draw;
pub mod drawing_laws;
pub mod encoding;
pub mod encoding_laws;
pub mod engine_laws;
pub mod filter;
pub mod filter_laws;
pub mod filter_passes;
pub mod float;
pub mod frame_laws;
pub mod frame_trace;
pub mod goldy_engine;
pub mod goldy_renderer;
pub mod gpu_resources;
pub mod image;
pub mod layout;
pub mod live_laws;
pub mod live_texture;
pub mod math;
pub mod morton;
pub mod path;
pub mod path_tiling_setup;
pub mod pipeline_laws;
pub mod pipeline_resources;
pub mod pixels;
pub mod recording;
pub mod render;
pub mod resource_proxy;
pub mod retention_laws;
pub mod scene_data;
pub mod scheme_gpu_resources;
pub mod scheme_render;
pub mod scheme_renderer;
pub mod shaders;
pub mod sizing_laws;
pub mod slang;
pub mod text;
pub mod text_laws;
pub mod upload_laws;
pub mod worker_retention;

verus! {

/// Represents the anti-aliasing method to use during a render pass.
///
/// Each value of this can only be used if the corresponding field on [`AaSupport`] was used.
#[derive(Debug, Copy, Clone, PartialEq, Eq, Structural)]
pub enum AaConfig {
    /// Area anti-aliasing, where the alpha value for a pixel is computed from integrating
    /// the winding number over its square area.
    ///
    /// This technique produces very accurate values when the shape has winding number of 0 or 1
    /// everywhere, but can result in conflation artifacts otherwise.
    /// It generally has better performance than the multi-sampling methods.
    Area,
    /// 8x Multisampling
    Msaa8,
    /// 16x Multisampling
    Msaa16,
}

/// Represents the set of anti-aliasing configurations to enable during pipeline creation.
#[derive(Debug, Copy, Clone, PartialEq, Eq, Structural)]
pub struct AaSupport {
    /// Support [`AaConfig::Area`].
    pub area: bool,
    /// Support [`AaConfig::Msaa8`].
    pub msaa8: bool,
    /// Support [`AaConfig::Msaa16`].
    pub msaa16: bool,
}

impl AaSupport {
    /// Support every anti-aliasing method.
    ///
    /// This might increase startup time, as more shader variations must be compiled.
    pub fn all() -> (s: Self)
        ensures
            s == (AaSupport { area: true, msaa8: true, msaa16: true }),
            forall|config: AaConfig| #[trigger] s.supports(config),
    {
        AaSupport { area: true, msaa8: true, msaa16: true }
    }

    /// Support only [`AaConfig::Area`].
    ///
    /// This should be the default choice for most users.
    pub fn area_only() -> (s: Self)
        ensures
            s == (AaSupport { area: true, msaa8: false, msaa16: false }),
            forall|config: AaConfig| #[trigger] s.supports(config) <==> config is Area,
    {
        AaSupport { area: true, msaa8: false, msaa16: false }
    }

    /// Support exactly the methods that are listed.
    pub fn from_iter(configs: &[AaConfig]) -> (s: Self)
        ensures
            forall|config: AaConfig| #[trigger] s.supports(config) == configs@.contains(config),
            s.area == configs@.contains(AaConfig::Area),
            s.msaa8 == configs@.contains(AaConfig::Msaa8),
            s.msaa16 == configs@.contains(AaConfig::Msaa16),
    {
        let mut result: AaSupport = AaSupport { area: false, msaa8: false, msaa16: false };
        let mut i: usize = 0;
        while i < configs.len()
            invariant
                i <= configs.len(),
                result.area == configs@.take(i as int).contains(AaConfig::Area),
                result.msaa8 == configs@.take(i as int).contains(AaConfig::Msaa8),
                result.msaa16 == configs@.take(i as int).contains(AaConfig::Msaa16),
            decreases configs.len() - i,
        {
            let ghost seen = configs@.take(i as int);
            assert(configs@.take(i as int + 1) =~= seen.push(configs@[i as int]));
            proof {
                vstd::seq_lib::lemma_seq_contains_after_push(seen, configs@[i as int], AaConfig::Area);
                vstd::seq_lib::lemma_seq_contains_after_push(seen, configs@[i as int], AaConfig::Msaa8);
                vstd::seq_lib::lemma_seq_contains_after_push(seen, configs@[i as int], AaConfig::Msaa16);
            }
            match configs[i] {
                AaConfig::Area => {
                    result.area = true;
                },
                AaConfig::Msaa8 => {
                    result.msaa8 = true;
                },
                AaConfig::Msaa16 => {
                    result.msaa16 = true;
                },
            }
            i = i + 1;
        }
        assert(configs@.take(configs@.len() as int) =~= configs@);
        result
    }

    /// The method can be used.
    pub open spec fn supports(self, config: AaConfig) -> bool {
        match config {
            AaConfig::Area => self.area,
            AaConfig::Msaa8 => self.msaa8,
            AaConfig::Msaa16 => self.msaa16,
        }
    }
}

/// Errors that can occur in Ekrano.
#[derive(Debug)]
#[non_exhaustive]
pub enum Error {
    /// Shader or GPU operation error.
    Shader(String),
    /// An image was submitted for rendering but contained no pixel data despite having non-zero
    /// dimensions. This typically means the image was registered with a different renderer
    /// instance or was unregistered before the render was submitted.
    InvalidImage { id: u64, reason: String },
    /// A GPU resource (texture, buffer) could not be created or configured.
    Gpu(String),
    /// Reading rendered pixel data back to the CPU failed.
    Readback(String),
}

impl Error {
    /// The text of the error.
    pub open spec fn spec_message(self) -> Seq<char> {
        match self {
            Error::Shader(text) => "Shader/GPU error: "@ + text@,
            Error::InvalidImage { id, reason } => "Invalid empty image (id: "@ + text::decimal_of(id as nat) + "): "@
                + reason@,
            Error::Gpu(text) => "GPU resource error: "@ + text@,
            Error::Readback(text) => "CPU readback error: "@ + text@,
        }
    }

    /// Describes the error to a reader.
    pub fn message(&self) -> (m: String)
        ensures
            m@ == self.spec_message(),
    {
        match self {
            Error::Shader(text) => String::from_str("Shader/GPU error: ").concat(text.as_str()),
            Error::InvalidImage { id, reason } => {
                let mut m: String = String::from_str("Invalid empty image (id: ");
                let number: String = text::decimal(*id);
                m.append(number.as_str());
                m.append("): ");
                m.append(reason.as_str());
                m
            },
            Error::Gpu(text) => String::from_str("GPU resource error: ").concat(text.as_str()),
            Error::Readback(text) => String::from_str("CPU readback error: ").concat(text.as_str()),
        }
    }
}

/// Parameters used in a single render that are configurable by the client.
#[derive(Debug, Clone, Copy)]
pub struct RenderParams {
    /// The background color applied to the target. This value is only applicable to the full
    /// pipeline.
    pub base_color: Color,
    /// Dimensions of the rasterization target
    pub width: u32,
    pub height: u32,
    /// The anti-aliasing algorithm. The selected algorithm must have been initialized while
    /// constructing the renderer.
    pub antialiasing_method: AaConfig,
    /// Enable robust dynamic memory: download the bump allocator after each
    /// frame so overflows can be detected and buffers grown automatically.
    ///
    /// Turning this off eliminates the per-frame readback and the
    /// pipelining sync point it imposes, which can significantly improve
    /// throughput at the cost of silently producing incomplete output if the
    /// bump allocator overflows.
    pub robust: bool,
}

} // verus!
