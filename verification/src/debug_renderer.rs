//! Debug visualization: the draws that show what a frame was made of.

use crate::config::BumpAllocators;
use crate::gpu_resources::{record_upload_bytes, BufferUpload};
use crate::layout::{Element, LineSoup};
use crate::pixels::{holds_words, words_to_bytes};
use crate::render::CapturedBuffers;
use crate::resource_proxy::ShaderId;
use crate::RenderParams;
use vstd::prelude::*;

verus! {

/// Debug buffers that were downloaded.
pub struct DebugDownloads<'a> {
    /// Raw bytes of the downloaded line-soup buffer, for validation.
    pub lines: &'a [u8],
}

impl DebugDownloads<'_> {
    /// How many lines there are to validate, where the layers ask for it.
    pub fn lines_to_validate(&self, layers: DebugLayers) -> (n: Option<usize>)
        requires
            layers.validation ==> self.lines@.len() % LineSoup::spec_stride() as nat == 0,
        ensures
            n == (if layers.validation {
                Some((self.lines@.len() / LineSoup::spec_stride() as nat) as usize)
            } else {
                None
            }),
            n is Some <==> layers.validation,
            n matches Some(count) ==> 24 * count == self.lines@.len(),
    {
        if layers.validation {
            Some(self.lines.len() / 24)
        } else {
            None
        }
    }
}

/// What validation found in the lines: ends of lines that no other line continues.
pub struct UnpairedPoints {
    pub count: usize,
    /// The points as they are uploaded.
    pub bytes: Vec<u8>,
}

/// What is shown.
#[derive(Clone, Copy, Debug, PartialEq, Eq, Structural)]
pub struct DebugLayers {
    pub bounding_boxes: bool,
    pub linesoup_segments: bool,
    pub linesoup_points: bool,
    pub validation: bool,
}

impl DebugLayers {
    /// Nothing is shown.
    pub open spec fn shows_nothing(self) -> bool {
        !self.bounding_boxes && !self.linesoup_segments && !self.linesoup_points && !self.validation
    }

    pub fn is_empty(self) -> (b: bool)
        ensures
            b == self.shows_nothing(),
    {
        !(self.bounding_boxes || self.linesoup_segments || self.linesoup_points || self.validation)
    }
}

/// A draw of some vertices, a number of times.
#[derive(Clone, Copy, Debug, PartialEq, Eq, Structural)]
pub struct DrawParams {
    pub shader_id: ShaderId,
    pub instance_count: u32,
    pub vertex_count: u32,
    /// The draw reads the buffer of unpaired points.
    pub unpaired_points: bool,
}

/// Color and size of points, in a uniform of its own alignment.
#[derive(Clone, Copy, Debug, PartialEq, Eq)]
pub struct LinepointsUniforms {
    pub point_color: [u32; 3],
    pub point_size: u32,
}

/// Bytes of a uniform for points, which is the alignment that uniforms need.
pub const LINEPOINTS_STRIDE: u32 = 256;

impl LinepointsUniforms {
    pub fn new(color: [u32; 3], point_size: u32) -> (u: Self)
        ensures
            u.point_color == color,
            u.point_size == point_size,
    {
        LinepointsUniforms { point_color: color, point_size }
    }

    /// The words of the uniform: the color, the size, and zeros up to the alignment.
    pub open spec fn words(self) -> Seq<u32> {
        seq![self.point_color[0], self.point_color[1], self.point_color[2], self.point_size] + Seq::new(60, |i: int| 0u32)
    }

    fn push_words(&self, out: &mut Vec<u32>)
        ensures
            final(out)@ == old(out)@ + self.words(),
    {
        let ghost before = out@;
        out.push(self.point_color[0]);
        out.push(self.point_color[1]);
        out.push(self.point_color[2]);
        out.push(self.point_size);
        let ghost head = seq![self.point_color[0], self.point_color[1], self.point_color[2], self.point_size];
        assert(out@ =~= before + head);
        let mut i: usize = 0;
        while i < 60
            invariant
                i <= 60,
                out@ == before + head + Seq::new(i as nat, |k: int| 0u32),
            decreases 60 - i,
        {
            out.push(0);
            i = i + 1;
            assert(out@ =~= before + head + Seq::new(i as nat, |k: int| 0u32));
        }
        assert(out@ =~= before + self.words());
    }
}

/// `palette::css::DARK_CYAN` of `peniko::color` without its alpha. The components are those of the
/// bytes 0, 139 and 139.
#[verifier::external_body]
fn dark_cyan() -> (components: [u32; 3])
    ensures
        components@ == seq![0u32, 0x3f0b_8b8c, 0x3f0b_8b8c],
{
    bytemuck::cast(peniko::color::palette::css::DARK_CYAN.discard_alpha().components)
}

/// `palette::css::RED` of `peniko::color` without its alpha. The components are those of the bytes
/// 255, 0 and 0.
#[verifier::external_body]
fn red() -> (components: [u32; 3])
    ensures
        components@ == seq![0x3f80_0000u32, 0, 0],
{
    bytemuck::cast(peniko::color::palette::css::RED.discard_alpha().components)
}

/// What the debug visualization uploads and draws.
pub struct DebugPlan {
    /// The points that are not paired, where there are any to show.
    pub unpaired_points: Option<BufferUpload>,
    /// Width and height of the target.
    pub uniforms: BufferUpload,
    /// Uniforms for points of line segments, and for points that are not paired.
    pub linepoints_uniforms: BufferUpload,
    pub draws: Vec<DrawParams>,
    /// The uploads go back to the pool under these names once the GPU is done with the frame, the
    /// points first.
    pub deferred: Vec<&'static str>,
}

/// The names under which the uploads go back to the pool.
pub open spec fn deferred_names(points_shown: bool) -> Seq<&'static str> {
    let uniforms = seq!["ekrano.debug_uniforms", "ekrano.debug.linepoints_uniforms"];
    if points_shown {
        seq!["ekrano.debug.vertex_buffer"] + uniforms
    } else {
        uniforms
    }
}

impl DebugPlan {
    /// The buffers that are uploaded, with their labels and strides.
    pub open spec fn uploads(self, params: RenderParams, unpaired: Option<Seq<u8>>) -> bool {
        &&& match (self.unpaired_points, unpaired) {
            (Some(upload), Some(bytes)) => upload.label == "ekrano.debug.unpaired_points" && upload.stride == 1
                && upload.bytes@ == bytes,
            (None, None) => true,
            _ => false,
        }
        &&& self.uniforms.label == "ekrano.debug_uniforms"
        &&& self.uniforms.stride == 1
        &&& holds_words(self.uniforms.bytes@, seq![params.width, params.height])
        &&& self.linepoints_uniforms.label == "ekrano.debug.linepoints_uniforms"
        &&& self.linepoints_uniforms.stride == LINEPOINTS_STRIDE
        &&& holds_words(self.linepoints_uniforms.bytes@, segment_points() + lone_points())
    }
}

/// The points of line segments: dark cyan, ten pixels wide.
pub open spec fn segment_points() -> Seq<u32> {
    seq![0u32, 0x3f0b_8b8c, 0x3f0b_8b8c, 0x4120_0000] + Seq::new(60, |i: int| 0u32)
}

/// The points that are not paired: red, eighty pixels wide.
pub open spec fn lone_points() -> Seq<u32> {
    seq![0x3f80_0000u32, 0, 0, 0x42a0_0000] + Seq::new(60, |i: int| 0u32)
}

/// Draws the debug layers.
pub struct DebugRenderer {
    pub clear_tint: ShaderId,
    pub bboxes: ShaderId,
    pub linesoup: ShaderId,
    pub linesoup_points: ShaderId,
    pub unpaired_points: ShaderId,
}

impl DebugRenderer {
    /// A renderer whose shaders do not exist.
    pub fn new() -> (r: Self)
        ensures
            r.clear_tint == ShaderId(usize::MAX),
            r.bboxes == ShaderId(usize::MAX),
            r.linesoup == ShaderId(usize::MAX),
            r.linesoup_points == ShaderId(usize::MAX),
            r.unpaired_points == ShaderId(usize::MAX),
    {
        DebugRenderer {
            clear_tint: ShaderId(usize::MAX),
            bboxes: ShaderId(usize::MAX),
            linesoup: ShaderId(usize::MAX),
            linesoup_points: ShaderId(usize::MAX),
            unpaired_points: ShaderId(usize::MAX),
        }
    }

    /// A draw of one layer.
    pub open spec fn draw_of(shader_id: ShaderId, instance_count: u32, vertex_count: u32) -> DrawParams {
        DrawParams { shader_id, instance_count, vertex_count, unpaired_points: false }
    }

    /// The draws for the layers, in order, over a tint of the target.
    pub open spec fn draws(
        self,
        layers: DebugLayers,
        captured: CapturedBuffers,
        bump: BumpAllocators,
        unpaired: int,
    ) -> Seq<DrawParams> {
        let tint = seq![Self::draw_of(self.clear_tint, 1, 4)];
        let boxes = if layers.bounding_boxes {
            seq![Self::draw_of(self.bboxes, captured.sizes.path_bboxes@ as u32, 5)]
        } else {
            seq![]
        };
        let segments = if layers.linesoup_segments {
            seq![Self::draw_of(self.linesoup, bump.lines, 4)]
        } else {
            seq![]
        };
        let points = if layers.linesoup_points {
            seq![Self::draw_of(self.linesoup_points, bump.lines, 4)]
        } else {
            seq![]
        };
        let lone = if layers.validation && unpaired > 0 {
            seq![
                DrawParams {
                    shader_id: self.unpaired_points,
                    instance_count: unpaired as u32,
                    vertex_count: 4,
                    unpaired_points: true,
                },
            ]
        } else {
            seq![]
        };
        tint + boxes + segments + points + lone
    }

    /// Plans the debug visualization of a frame, in which validation found these unpaired points.
    /// The draw gives back the points that it reads; the uniform buffers are given back after it.
    pub fn render(
        &self,
        captured: &CapturedBuffers,
        bump: &BumpAllocators,
        params: &RenderParams,
        unpaired: UnpairedPoints,
        layers: DebugLayers,
    ) -> (plan: Option<DebugPlan>)
        requires
            layers.validation ==> unpaired.count <= u32::MAX,
        ensures
            match plan {
                None => layers.shows_nothing(),
                Some(p) => {
                    &&& !layers.shows_nothing()
                    &&& p.uploads(
                        *params,
                        if layers.validation && unpaired.count > 0 {
                            Some(unpaired.bytes@)
                        } else {
                            None
                        },
                    )
                    &&& p.draws@ == self.draws(layers, *captured, *bump, unpaired.count as int)
                    &&& p.deferred@ == deferred_names(layers.validation && unpaired.count > 0)
                },
            },
    {
        if layers.is_empty() {
            return None;
        }
        let size: [u32; 2] = [params.width, params.height];
        assert(size@ =~= seq![params.width, params.height]);
        let uniforms: BufferUpload = record_upload_bytes("ekrano.debug_uniforms", 1, words_to_bytes(&size));
        let segment_uniform: LinepointsUniforms = LinepointsUniforms::new(dark_cyan(), 0x4120_0000);
        let lone_uniform: LinepointsUniforms = LinepointsUniforms::new(red(), 0x42a0_0000);
        let mut words: Vec<u32> = Vec::new();
        segment_uniform.push_words(&mut words);
        lone_uniform.push_words(&mut words);
        proof {
            assert(segment_uniform.point_color@[0] == 0 && segment_uniform.point_color@[1] == 0x3f0b_8b8c
                && segment_uniform.point_color@[2] == 0x3f0b_8b8c);
            assert(lone_uniform.point_color@[0] == 0x3f80_0000 && lone_uniform.point_color@[1] == 0
                && lone_uniform.point_color@[2] == 0);
            assert(segment_uniform.words() =~= segment_points());
            assert(lone_uniform.words() =~= lone_points());
            assert(words@ =~= segment_points() + lone_points());
        }
        let linepoints_uniforms: BufferUpload = record_upload_bytes(
            "ekrano.debug.linepoints_uniforms",
            LINEPOINTS_STRIDE,
            words_to_bytes(words.as_slice()),
        );
        let mut draws: Vec<DrawParams> = Vec::new();
        draws.push(
            DrawParams { shader_id: self.clear_tint, instance_count: 1, vertex_count: 4, unpaired_points: false },
        );
        if layers.bounding_boxes {
            draws.push(
                DrawParams {
                    shader_id: self.bboxes,
                    instance_count: captured.sizes.path_bboxes.len(),
                    vertex_count: 5,
                    unpaired_points: false,
                },
            );
        }
        if layers.linesoup_segments {
            draws.push(
                DrawParams {
                    shader_id: self.linesoup,
                    instance_count: bump.lines,
                    vertex_count: 4,
                    unpaired_points: false,
                },
            );
        }
        if layers.linesoup_points {
            draws.push(
                DrawParams {
                    shader_id: self.linesoup_points,
                    instance_count: bump.lines,
                    vertex_count: 4,
                    unpaired_points: false,
                },
            );
        }
        let count: usize = unpaired.count;
        let mut deferred: Vec<&'static str> = Vec::new();
        let unpaired_points: Option<BufferUpload> = if layers.validation && count > 0 {
            draws.push(
                DrawParams {
                    shader_id: self.unpaired_points,
                    instance_count: count as u32,
                    vertex_count: 4,
                    unpaired_points: true,
                },
            );
            deferred.push("ekrano.debug.vertex_buffer");
            Some(record_upload_bytes("ekrano.debug.unpaired_points", 1, unpaired.bytes))
        } else {
            None
        };
        assert(draws@ =~= self.draws(layers, *captured, *bump, count as int));
        deferred.push("ekrano.debug_uniforms");
        deferred.push("ekrano.debug.linepoints_uniforms");
        assert(deferred@ =~= deferred_names(layers.validation && count > 0));
        Some(DebugPlan { unpaired_points, uniforms, linepoints_uniforms, draws, deferred })
    }
}

} // verus!
