//! Direct GPU resource handles: the slots that a dispatch is given, and the resources of a frame that
//! is recorded into one graph.

use crate::config::{BufferSizes, ConfigUniform, RenderConfig};
use crate::coverage_mask::CoverageMask;
use crate::image::ImageData;
use crate::layout::Element;
use crate::pixels::{holds_words, words_to_bytes};
use crate::resource_proxy::{BindType, ImageFormat, TextureFlags, TextureFormat, TextureKind, TextureRequest};
use crate::scheme_gpu_resources::{
    collect_images, config_bytes, config_words, frame_uniform, lacks_pixels, mask_pixels, mask_rgba,
    new_render_targets, no_pixels_reason, padded_scene, targets_for, BufferRequest, CachedPipeline, NewTargets,
    PipelineStep, RegionWrite, ScratchPipelineBuffers, StablePipelineBuffers,
};
use crate::text::{decimal, decimal_of, same_text};
use crate::upload_laws::graph_plan_serves;
use crate::{Error, RenderParams};
use vstd::prelude::*;
use vstd::string::*;

verus! {

/// The slots of a resource, by the access that they give.
#[derive(Clone, Copy, Debug, PartialEq, Eq, Structural)]
pub struct ResourceIndices {
    pub read: Option<u32>,
    pub write: Option<u32>,
    pub read_write: Option<u32>,
}

/// What a dispatch is bound to.
#[derive(Clone, Copy, Debug, PartialEq, Eq, Structural)]
pub enum GpuBinding {
    Buf(ResourceIndices),
    Tex(ResourceIndices),
    /// A sampler, by its slot.
    Sampler(u32),
    /// A buffer that is uploaded exactly once, by its slot.
    PersistentBuf(u32),
}

impl GpuBinding {
    /// The slot for a kind of access.
    pub open spec fn slot_for(self, is_read_only: bool) -> Option<u32> {
        match self {
            GpuBinding::Buf(indices) | GpuBinding::Tex(indices) => if is_read_only {
                indices.read
            } else {
                indices.write
            },
            GpuBinding::Sampler(slot) | GpuBinding::PersistentBuf(slot) => Some(slot),
        }
    }

    /// The slot for a kind of access.
    pub fn bindless_slot(&self, is_read_only: bool) -> (r: Result<u32, Error>)
        ensures
            match r {
                Ok(slot) => self.slot_for(is_read_only) == Some(slot),
                Err(e) => self.slot_for(is_read_only) is None && (e matches Error::Shader(text) && text@
                    == missing_slot()@),
            },
    {
        let slot: Option<u32> = match *self {
            GpuBinding::Buf(indices) | GpuBinding::Tex(indices) => if is_read_only {
                indices.read
            } else {
                indices.write
            },
            GpuBinding::Sampler(slot) | GpuBinding::PersistentBuf(slot) => Some(slot),
        };
        match slot {
            Some(slot) => Ok(slot),
            None => Err(Error::Shader(String::from_str("bindless index missing for shader resource binding"))),
        }
    }

    /// The slot that a shader is given for what it binds. A texture that is sampled is given its
    /// sampled slot; storage images have none, and are given their storage slot.
    pub open spec fn bound_slot(self, bind_type: Option<BindType>) -> Option<u32> {
        match self {
            GpuBinding::Buf(_) => self.slot_for(bind_type == Some(BindType::BufReadOnly)),
            GpuBinding::Tex(indices) => if bind_type matches Some(BindType::ImageRead(_)) {
                if indices.read is Some {
                    indices.read
                } else if indices.write is Some {
                    indices.write
                } else {
                    indices.read_write
                }
            } else {
                indices.write
            },
            GpuBinding::Sampler(slot) | GpuBinding::PersistentBuf(slot) => Some(slot),
        }
    }

    /// Why there is no slot.
    pub open spec fn no_slot_reason(self, bind_type: Option<BindType>) -> &'static str {
        if self is Tex && bind_type matches Some(BindType::ImageRead(_)) {
            "resource sampled index missing for ImageRead texture binding"
        } else {
            missing_slot()
        }
    }

    fn find_slot(&self, bind_type: Option<BindType>) -> (r: Result<u32, Error>)
        ensures
            match r {
                Ok(slot) => self.bound_slot(bind_type) == Some(slot),
                Err(e) => self.bound_slot(bind_type) is None && (e matches Error::Shader(text) && text@
                    == self.no_slot_reason(bind_type)@),
            },
    {
        let is_read_only: bool = matches!(bind_type, Some(BindType::BufReadOnly));
        let is_sampled_image: bool = matches!(bind_type, Some(BindType::ImageRead(_)));
        match *self {
            GpuBinding::Buf(_) => self.bindless_slot(is_read_only),
            GpuBinding::Tex(indices) => {
                if is_sampled_image {
                    match (indices.read, indices.write, indices.read_write) {
                        (Some(slot), _, _) | (None, Some(slot), _) | (None, None, Some(slot)) => Ok(slot),
                        (None, None, None) => Err(
                            Error::Shader(
                                String::from_str("resource sampled index missing for ImageRead texture binding"),
                            ),
                        ),
                    }
                } else {
                    self.bindless_slot(false)
                }
            },
            GpuBinding::Sampler(slot) | GpuBinding::PersistentBuf(slot) => Ok(slot),
        }
    }
}

/// Why there is no slot.
pub open spec fn missing_slot() -> &'static str {
    "bindless index missing for shader resource binding"
}

/// How the shader binds the resource at `i`.
pub open spec fn type_at(bind_types: Seq<BindType>, i: int) -> Option<BindType> {
    if 0 <= i < bind_types.len() {
        Some(bind_types[i])
    } else {
        None
    }
}

/// The slot of the binding at `i`.
pub open spec fn slot_at(bindings: Seq<GpuBinding>, bind_types: Seq<BindType>, i: int) -> Option<u32> {
    bindings[i].bound_slot(type_at(bind_types, i))
}

/// The slots of the first `n` bindings.
pub open spec fn slots(bindings: Seq<GpuBinding>, bind_types: Seq<BindType>, n: int) -> Seq<u32> {
    Seq::new(n as nat, |i: int| slot_at(bindings, bind_types, i)->0)
}

/// A shader binds more than it may.
pub open spec fn too_many_slots(n: nat, max: nat) -> Seq<char> {
    "shader requires "@ + decimal_of(n) + " bindless slots, exceeds limit of "@ + decimal_of(max)
}

pub(crate) fn slot_limit_error(n: usize, max: usize) -> (e: Error)
    ensures
        e matches Error::Shader(text) && text@ == too_many_slots(n as nat, max as nat),
{
    let mut text: String = String::from_str("shader requires ");
    let count: String = decimal(n as u64);
    let limit: String = decimal(max as u64);
    text.append(count.as_str());
    text.append(" bindless slots, exceeds limit of ");
    text.append(limit.as_str());
    Error::Shader(text)
}

/// Fills `out` with the slots of the bindings. What it held before is dropped, its allocation is
/// used again.
pub fn collect_bindless_indices_into(
    out: &mut Vec<u32>,
    bindings: &[GpuBinding],
    bind_types: &[BindType],
    max_slots: usize,
) -> (r: Result<(), Error>)
    ensures
        match r {
            Ok(()) => {
                &&& forall|i: int|
                    0 <= i < bindings@.len() ==> #[trigger] slot_at(bindings@, bind_types@, i) is Some
                &&& final(out)@ == slots(bindings@, bind_types@, bindings@.len() as int)
                &&& bindings@.len() <= max_slots
            },
            Err(e) => {
                ||| {
                    &&& forall|i: int|
                        0 <= i < bindings@.len() ==> #[trigger] slot_at(bindings@, bind_types@, i) is Some
                    &&& final(out)@ == slots(bindings@, bind_types@, bindings@.len() as int)
                    &&& bindings@.len() > max_slots
                    &&& e matches Error::Shader(text) && text@ == too_many_slots(bindings@.len(), max_slots as nat)
                }
                ||| exists|k: int|
                    {
                        &&& 0 <= k < bindings@.len()
                        &&& #[trigger] slot_at(bindings@, bind_types@, k) is None
                        &&& forall|i: int| 0 <= i < k ==> #[trigger] slot_at(bindings@, bind_types@, i) is Some
                        &&& final(out)@ == slots(bindings@, bind_types@, k)
                        &&& e matches Error::Shader(text) && text@ == bindings@[k].no_slot_reason(
                            type_at(bind_types@, k),
                        )@
                    }
            },
        },
{
    out.clear();
    let mut i: usize = 0;
    while i < bindings.len()
        invariant
            i <= bindings.len(),
            forall|k: int| 0 <= k < i ==> #[trigger] slot_at(bindings@, bind_types@, k) is Some,
            out@ == slots(bindings@, bind_types@, i as int),
        decreases bindings.len() - i,
    {
        let bind_type: Option<BindType> = if i < bind_types.len() {
            Some(bind_types[i])
        } else {
            None
        };
        assert(bind_type == type_at(bind_types@, i as int));
        match bindings[i].find_slot(bind_type) {
            Ok(slot) => {
                assert(slot_at(bindings@, bind_types@, i as int) == Some(slot));
                out.push(slot);
            },
            Err(e) => {
                assert(slot_at(bindings@, bind_types@, i as int) is None);
                return Err(e);
            },
        }
        i = i + 1;
        assert(out@ =~= slots(bindings@, bind_types@, i as int));
    }
    if out.len() > max_slots {
        return Err(slot_limit_error(out.len(), max_slots));
    }
    Ok(())
}

/// The texture format of an image.
pub fn image_fmt_goldy(f: ImageFormat) -> (t: TextureFormat)
    ensures
        t == (match f {
            ImageFormat::Rgba8 => TextureFormat::Rgba8Unorm,
            ImageFormat::Bgra8 => TextureFormat::Bgra8Unorm,
        }),
        t is Bgra8Unorm <==> f is Bgra8,
{
    match f {
        ImageFormat::Rgba8 => TextureFormat::Rgba8Unorm,
        ImageFormat::Bgra8 => TextureFormat::Bgra8Unorm,
    }
}

/// The buffers that have to be zero before the GPU first reads them. All others are overwritten
/// before that.
pub open spec fn pool_exempt(name: Seq<char>) -> bool {
    name == "ekrano.bump_buf"@ || name == "ekrano.indirect_dispatch"@
}

/// Whether a buffer has to be zero before the GPU first reads it.
pub fn is_pool_exempt(name: &'static str) -> (b: bool)
    ensures
        b == pool_exempt(name@),
{
    same_text(name, "ekrano.bump_buf") || same_text(name, "ekrano.indirect_dispatch")
}

/// A pipeline buffer that is asked of the pool, and the range of it that is cleared first.
#[derive(Clone, Copy, Debug)]
pub struct PipelineBufferPlan {
    pub request: BufferRequest,
    pub cpu_readable: bool,
    pub clear: Option<(u64, u64)>,
}

/// Asks for a pipeline buffer. The bump counters and the indirect dispatch sizes start at zero.
pub fn alloc_pipeline_buffer(size: u64, stride: u32, name: &'static str, cpu_readable: bool) -> (plan:
    PipelineBufferPlan)
    ensures
        plan.request == (BufferRequest { size, stride, label: name }),
        plan.cpu_readable == cpu_readable,
        plan.clear == (if pool_exempt(name@) {
            Some((0u64, size))
        } else {
            None
        }),
{
    let clear: Option<(u64, u64)> = if is_pool_exempt(name) {
        Some((0, size))
    } else {
        None
    };
    PipelineBufferPlan { request: BufferRequest { size, stride, label: name }, cpu_readable, clear }
}


impl StablePipelineBuffers {
    /// The handles with the labels under which they were asked for.
    pub open spec fn labelled(self) -> Seq<(u64, &'static str)> {
        seq![
            (self.info_bin_data, "ekrano.info_bin_data_buf"),
            (self.tile, "ekrano.tile_buf"),
            (self.segments, "ekrano.segments_buf"),
            (self.ptcl, "ekrano.ptcl_buf"),
            (self.blend_spill, "ekrano.blend_spill"),
            (self.lines, "ekrano.lines_buf"),
            (self.seg_counts, "ekrano.seg_counts_buf"),
        ]
    }

    /// Lists the buffers as they go back to the pool.
    pub fn return_to_pool(self) -> (list: Vec<(u64, &'static str)>)
        ensures
            list@ == self.labelled(),
    {
        let list: Vec<(u64, &'static str)> = vec![
            (self.info_bin_data, "ekrano.info_bin_data_buf"),
            (self.tile, "ekrano.tile_buf"),
            (self.segments, "ekrano.segments_buf"),
            (self.ptcl, "ekrano.ptcl_buf"),
            (self.blend_spill, "ekrano.blend_spill"),
            (self.lines, "ekrano.lines_buf"),
            (self.seg_counts, "ekrano.seg_counts_buf"),
        ];
        assert(list@ =~= self.labelled());
        list
    }

    /// Lists the buffers as they are deferred until the GPU is done with them.
    pub fn defer_to(self) -> (list: Vec<(u64, &'static str)>)
        ensures
            list@ == self.labelled(),
    {
        self.return_to_pool()
    }
}

impl ScratchPipelineBuffers {
    /// The handles with the labels under which they were asked for.
    pub open spec fn labelled(self) -> Seq<(u64, &'static str)> {
        seq![
            (self.reduced, "ekrano.reduced_buf"),
            (self.reduced2, "ekrano.reduced2_buf"),
            (self.reduced_scan, "ekrano.reduced_scan_buf"),
            (self.tagmonoid, "ekrano.tagmonoid_buf"),
            (self.path_bbox, "ekrano.path_bbox_buf"),
            (self.draw_reduced, "ekrano.draw_reduced_buf"),
            (self.draw_monoid, "ekrano.draw_monoid_buf"),
            (self.clip_inp, "ekrano.clip_inp_buf"),
            (self.clip_el, "ekrano.clip_el_buf"),
            (self.clip_bic, "ekrano.clip_bic_buf"),
            (self.clip_bbox, "ekrano.clip_bbox_buf"),
            (self.draw_bbox, "ekrano.draw_bbox_buf"),
            (self.bin_header, "ekrano.bin_header_buf"),
            (self.path, "ekrano.path_buf"),
        ]
    }

    /// Lists the buffers as they go back to the pool.
    pub fn return_to_pool(self) -> (list: Vec<(u64, &'static str)>)
        ensures
            list@ == self.labelled(),
    {
        let list: Vec<(u64, &'static str)> = vec![
            (self.reduced, "ekrano.reduced_buf"),
            (self.reduced2, "ekrano.reduced2_buf"),
            (self.reduced_scan, "ekrano.reduced_scan_buf"),
            (self.tagmonoid, "ekrano.tagmonoid_buf"),
            (self.path_bbox, "ekrano.path_bbox_buf"),
            (self.draw_reduced, "ekrano.draw_reduced_buf"),
            (self.draw_monoid, "ekrano.draw_monoid_buf"),
            (self.clip_inp, "ekrano.clip_inp_buf"),
            (self.clip_el, "ekrano.clip_el_buf"),
            (self.clip_bic, "ekrano.clip_bic_buf"),
            (self.clip_bbox, "ekrano.clip_bbox_buf"),
            (self.draw_bbox, "ekrano.draw_bbox_buf"),
            (self.bin_header, "ekrano.bin_header_buf"),
            (self.path, "ekrano.path_buf"),
        ];
        assert(list@ =~= self.labelled());
        list
    }

    /// Lists the buffers as they are deferred until the GPU is done with them.
    pub fn defer_to(self) -> (list: Vec<(u64, &'static str)>)
        ensures
            list@ == self.labelled(),
    {
        self.return_to_pool()
    }
}

/// Buffers go back to the pool under the labels under which they are asked for.
pub proof fn buffers_are_returned_as_requested(
    stable: StablePipelineBuffers,
    scratch: ScratchPipelineBuffers,
    bs: BufferSizes,
)
    ensures
        stable.labelled().len() == StablePipelineBuffers::requests(bs).len(),
        scratch.labelled().len() == ScratchPipelineBuffers::requests(bs).len(),
        forall|i: int|
            0 <= i < stable.labelled().len() ==> (#[trigger] stable.labelled()[i]).1 == StablePipelineBuffers::requests(
                bs,
            )[i].label && stable.labelled()[i].0 == stable.spec_handles()[i],
        forall|i: int|
            0 <= i < scratch.labelled().len() ==> (#[trigger] scratch.labelled()[i]).1
                == ScratchPipelineBuffers::requests(bs)[i].label && scratch.labelled()[i].0
                == scratch.spec_handles()[i],
{
}

/// A new buffer and what is written to the whole of it.
#[derive(Debug)]
pub struct BufferUpload {
    pub label: &'static str,
    /// Bytes of an element.
    pub stride: u32,
    pub bytes: Vec<u8>,
}

/// Asks for a buffer as long as the bytes, and writes them to it.
pub fn record_upload_bytes(label: &'static str, stride: u32, bytes: Vec<u8>) -> (upload: BufferUpload)
    ensures
        upload == (BufferUpload { label, stride, bytes }),
{
    BufferUpload { label, stride, bytes }
}

/// Where the uniform buffer of a frame comes from.
#[derive(Debug)]
pub enum ConfigStep {
    /// The buffer holds the value already.
    Keep(u64),
    /// The buffer is written anew.
    Overwrite(u64, Vec<u8>),
    /// A new buffer is written.
    Upload(BufferUpload),
}

/// The step suits the uniform.
pub open spec fn config_step_for(cached: Option<(ConfigUniform, u64)>, value: ConfigUniform, step: ConfigStep) -> bool {
    match cached {
        Some((v, handle)) => if v == value {
            step == ConfigStep::Keep(handle)
        } else {
            step matches ConfigStep::Overwrite(h, bytes) && h == handle && holds_words(bytes@, config_words(value))
        },
        None => step matches ConfigStep::Upload(upload) && upload.label == "ekrano.config" && upload.stride
            == ConfigUniform::spec_stride() && holds_words(upload.bytes@, config_words(value)),
    }
}

/// Takes the uniform buffer of the previous frame. One that holds the value already is not written
/// again.
pub fn take_config_buffer(cached: &mut Option<(ConfigUniform, u64)>, value: &ConfigUniform) -> (step: ConfigStep)
    ensures
        config_step_for(*old(cached), *value, step),
        *final(cached) is None,
{
    match cached.take() {
        Some((v, handle)) => if v == *value {
            ConfigStep::Keep(handle)
        } else {
            ConfigStep::Overwrite(handle, config_bytes(value))
        },
        None => ConfigStep::Upload(
            record_upload_bytes("ekrano.config", ConfigUniform::stride(), config_bytes(value)),
        ),
    }
}

/// A texture that is asked of the pool, and what is uploaded to the whole of it.
#[derive(Debug)]
pub struct ImagePlan {
    pub texture: TextureRequest,
    pub bytes: Option<Vec<u8>>,
}

/// The resources of a frame: its output texture and its four filter layers.
#[derive(Clone, Copy, Debug, PartialEq, Eq)]
pub enum RenderTargets {
    Reuse(u64, [u64; 4]),
    /// An output texture, and four layers that are alike.
    Acquire(NewTargets),
}

/// What a frame that is recorded into one graph brings along.
pub struct GraphInputs<'a> {
    pub coverage_mask: Option<&'a CoverageMask>,
    pub ramps_data: &'a [u32],
    pub ramps_width: u32,
    pub ramps_height: u32,
    pub images_width: u32,
    pub images_height: u32,
    /// The images of the atlas with their places in it.
    pub images: &'a [(ImageData, u32, u32)],
    /// The pixels of the images.
    pub pixels: &'a [Vec<u8>],
    pub out_image_format: TextureFormat,
    /// Pipeline buffers of the previous frame.
    pub cached_pipeline: Option<CachedPipeline>,
    /// Render targets of the previous frame that fit this one.
    pub cached_targets: Option<(u64, [u64; 4])>,
}

/// The resources of a frame that is recorded into one graph, and the bytes to upload.
pub struct GraphPlan {
    pub gradient: ImagePlan,
    pub image_atlas: ImagePlan,
    pub image_writes: Vec<RegionWrite>,
    pub mask_atlas: ImagePlan,
    pub scene: BufferUpload,
    pub config: ConfigStep,
    pub config_value: ConfigUniform,
    /// Buffers of other sizes, which go back to the pool.
    pub returned: Vec<(u64, &'static str)>,
    pub pipeline: PipelineStep,
    pub bump: PipelineBufferPlan,
    /// Range of the bump buffer that is cleared once it is there.
    pub bump_clear: (u64, u64),
    pub targets: RenderTargets,
}

impl GraphInputs<'_> {
    /// The pixels belong to the images, and a coverage mask has the size of the frame.
    pub open spec fn wf(self, params: RenderParams) -> bool {
        &&& self.images@.len() == self.pixels@.len()
        &&& self.coverage_mask matches Some(m) ==> m.width == params.width && m.height == params.height
    }

    /// The image claims pixels but has none.
    pub open spec fn image_missing(self, i: int) -> bool {
        lacks_pixels(self.images@[i].0, self.pixels@[i]@)
    }

    /// The cached pipeline buffers have the sizes.
    pub open spec fn pipeline_fits(self, bs: BufferSizes) -> bool {
        self.cached_pipeline matches Some(c) && c.buffer_sizes@ == bs@
    }

    /// Buffers that go back to the pool.
    pub open spec fn returned(self, bs: BufferSizes) -> Seq<(u64, &'static str)> {
        match self.cached_pipeline {
            Some(c) if !self.pipeline_fits(bs) => c.stable.labelled() + c.scratch.labelled(),
            _ => seq![],
        }
    }
}

/// The plan asks for a texture that is sampled and uploads the bytes to it. The texture is copied
/// from where `copy_src` is set.
pub open spec fn image_plan(plan: ImagePlan, width: u32, height: u32, copy_src: bool, bytes: Option<Seq<u8>>) -> bool {
    &&& plan.texture == TextureRequest::sampled(width, height, copy_src)
    &&& match (plan.bytes, bytes) {
        (Some(a), Some(b)) => a@ == b,
        (None, None) => true,
        _ => false,
    }
}

/// Asks for a texture that is sampled.
pub fn acquire_texture_rgba(width: u32, height: u32, copy_src: bool) -> (plan: ImagePlan)
    ensures
        image_plan(plan, width, height, copy_src, None),
{
    ImagePlan {
        texture: TextureRequest {
            width,
            height,
            format: TextureFormat::Rgba8Unorm,
            kind: TextureKind::Interpolated,
            flags: TextureFlags { copy_dst: true, copy_src },
        },
        bytes: None,
    }
}

/// Asks for a texture that is sampled and uploads the pixels to the whole of it.
pub fn record_upload_image(width: u32, height: u32, bytes: Vec<u8>) -> (plan: ImagePlan)
    ensures
        image_plan(plan, width, height, false, Some(bytes@)),
{
    ImagePlan {
        texture: TextureRequest {
            width,
            height,
            format: image_fmt_goldy(ImageFormat::Rgba8),
            kind: TextureKind::Interpolated,
            flags: TextureFlags { copy_dst: true, copy_src: false },
        },
        bytes: Some(bytes),
    }
}

impl GraphPlan {
    /// Decides where the resources of a frame come from and what is uploaded to them.
    ///
    /// An image without pixels fails the frame before the uniform buffer has been taken.
    pub fn prepare(
        cached_config: &mut Option<(ConfigUniform, u64)>,
        inputs: &GraphInputs<'_>,
        packed: Vec<u8>,
        params: &RenderParams,
        config: &RenderConfig,
    ) -> (r: Result<GraphPlan, Error>)
        requires
            inputs.wf(*params),
            crate::scheme_gpu_resources::can_request_all(config.buffer_sizes),
        ensures
            r matches Ok(plan) ==> graph_plan_serves(*inputs, packed@, *params, *config, plan),
            match r {
                Ok(plan) => {
                    let bs = config.buffer_sizes;
                    let bump_size = bs.bump_alloc.bytes() as u64;
                    &&& forall|i: int| 0 <= i < inputs.images@.len() ==> !#[trigger] inputs.image_missing(i)
                    &&& if inputs.ramps_height == 0 {
                        image_plan(plan.gradient, 1, 1, false, None)
                    } else {
                        &&& plan.gradient.bytes matches Some(bytes) && holds_words(bytes@, inputs.ramps_data@)
                        &&& image_plan(
                            plan.gradient,
                            inputs.ramps_width,
                            inputs.ramps_height,
                            false,
                            Some(plan.gradient.bytes->0@),
                        )
                    }
                    &&& if inputs.images@.len() == 0 {
                        image_plan(plan.image_atlas, 1, 1, true, None)
                    } else {
                        image_plan(plan.image_atlas, inputs.images_width, inputs.images_height, true, None)
                    }
                    &&& crate::scheme_gpu_resources::writes_images(
                        plan.image_writes@,
                        inputs.images@,
                        inputs.pixels@,
                        inputs.images@.len() as int,
                    )
                    &&& match inputs.coverage_mask {
                        Some(m) => image_plan(
                            plan.mask_atlas,
                            m.width,
                            m.height,
                            false,
                            Some(mask_pixels(inputs.coverage_mask)),
                        ),
                        None => image_plan(plan.mask_atlas, 1, 1, false, Some(mask_pixels(inputs.coverage_mask))),
                    }
                    &&& plan.scene.label == "ekrano.scene"
                    &&& plan.scene.stride == 4
                    &&& plan.scene.bytes@ == padded_scene(packed@)
                    &&& plan.config_value == frame_uniform(*config, inputs.coverage_mask is Some)
                    &&& config_step_for(*old(cached_config), plan.config_value, plan.config)
                    &&& *final(cached_config) is None
                    &&& plan.returned@ == inputs.returned(bs)
                    &&& crate::scheme_gpu_resources::pipeline_step_for(inputs.cached_pipeline, bs, plan.pipeline)
                    &&& plan.bump.request == (BufferRequest {
                        size: bump_size,
                        stride: 36,
                        label: "ekrano.bump_buf",
                    })
                    &&& plan.bump.cpu_readable
                    &&& plan.bump.clear == Some((0u64, bump_size))
                    &&& plan.bump_clear == (0u64, bump_size)
                    &&& plan.targets == (match inputs.cached_targets {
                        Some((out, layers)) => RenderTargets::Reuse(out, layers),
                        None => RenderTargets::Acquire(
                            targets_for(params.width, params.height, inputs.out_image_format, false),
                        ),
                    })
                },
                Err(e) => {
                    &&& *final(cached_config) == *old(cached_config)
                    &&& exists|k: int|
                        {
                            &&& 0 <= k < inputs.images@.len()
                            &&& #[trigger] inputs.image_missing(k)
                            &&& forall|i: int| 0 <= i < k ==> !#[trigger] inputs.image_missing(i)
                            &&& e matches Error::InvalidImage { id, reason } && id == inputs.images@[k].0.id && reason@
                                == no_pixels_reason()@
                        }
                },
            },
    {
        let mut scene_bytes: Vec<u8> = packed;
        if scene_bytes.len() == 0 {
            scene_bytes.push(255);
            scene_bytes.push(255);
            scene_bytes.push(255);
            scene_bytes.push(255);
        }
        assert(scene_bytes@ =~= padded_scene(packed@));
        let mut config_value: ConfigUniform = config.gpu;
        if inputs.coverage_mask.is_some() {
            config_value.mask_active = 1;
        }
        let gradient: ImagePlan = if inputs.ramps_height == 0 {
            acquire_texture_rgba(1, 1, false)
        } else {
            record_upload_image(inputs.ramps_width, inputs.ramps_height, words_to_bytes(inputs.ramps_data))
        };
        let image_atlas: ImagePlan = if inputs.images.len() == 0 {
            acquire_texture_rgba(1, 1, true)
        } else {
            acquire_texture_rgba(inputs.images_width, inputs.images_height, true)
        };
        let (image_writes, missing) = collect_images(inputs.images, inputs.pixels);
        if let Some(e) = missing {
            assert(inputs.image_missing(image_writes@.len() as int));
            return Err(e);
        }
        let (mask_width, mask_height) = match inputs.coverage_mask {
            Some(m) => (m.width, m.height),
            None => (1u32, 1u32),
        };
        let mask_atlas: ImagePlan = record_upload_image(mask_width, mask_height, mask_rgba(inputs.coverage_mask));
        let config_step: ConfigStep = take_config_buffer(cached_config, &config_value);
        let bs: &BufferSizes = &config.buffer_sizes;
        let mut returned: Vec<(u64, &'static str)> = Vec::new();
        let pipeline: PipelineStep = match inputs.cached_pipeline {
            Some(c) => {
                if c.buffer_sizes == *bs {
                    PipelineStep {
                        released: None,
                        stable: StablePipelineBuffers::acquire(Some(c.stable), bs),
                        scratch: ScratchPipelineBuffers::acquire(Some(c.scratch), bs),
                    }
                } else {
                    let mut stable: Vec<(u64, &'static str)> = c.stable.return_to_pool();
                    let mut scratch: Vec<(u64, &'static str)> = c.scratch.return_to_pool();
                    returned.append(&mut stable);
                    returned.append(&mut scratch);
                    assert(returned@ =~= c.stable.labelled() + c.scratch.labelled());
                    PipelineStep {
                        released: Some((c.stable, c.scratch)),
                        stable: StablePipelineBuffers::acquire(None, bs),
                        scratch: ScratchPipelineBuffers::acquire(None, bs),
                    }
                }
            },
            None => PipelineStep {
                released: None,
                stable: StablePipelineBuffers::acquire(None, bs),
                scratch: ScratchPipelineBuffers::acquire(None, bs),
            },
        };
        let bump_size: u64 = bs.bump_alloc.size_in_bytes() as u64;
        let bump: PipelineBufferPlan = alloc_pipeline_buffer(bump_size, 36, "ekrano.bump_buf", true);
        let targets: RenderTargets = match inputs.cached_targets {
            Some((out, layers)) => RenderTargets::Reuse(out, layers),
            None => RenderTargets::Acquire(
                new_render_targets(params.width, params.height, inputs.out_image_format, false),
            ),
        };
        Ok(
            GraphPlan {
                gradient,
                image_atlas,
                image_writes,
                mask_atlas,
                scene: record_upload_bytes("ekrano.scene", 4, scene_bytes),
                config: config_step,
                config_value,
                returned,
                pipeline,
                bump,
                bump_clear: (0, bump_size),
                targets,
            },
        )
    }
}

} // verus!
