//! The resources of a frame by their handles: how they follow from a plan, and which one a binding
//! stands for.

use crate::config::RenderConfig;
use crate::goldy_renderer::{AtlasTexture, SizedBuffer, TargetStep, TargetTexture};
use crate::recording::{PipelineBuffer, TextureSlot};
use crate::scheme_gpu_resources::{
    AtlasStep, BufferStep, BumpStep, PipelineResources, PreparePlan, SceneStep, ScratchPipelineBuffers,
    StablePipelineBuffers,
};
use crate::worker_retention::WorkerResourceHandles;
use crate::RenderParams;
use vstd::prelude::*;

verus! {

impl AtlasStep {
    /// The atlas of the frame, for which a texture was made where there was none to use again.
    pub open spec fn spec_texture_with(self, made: u64) -> AtlasTexture {
        AtlasTexture {
            width: self.texture.width,
            height: self.texture.height,
            handle: match self.reused {
                Some(handle) => handle,
                None => made,
            },
        }
    }

    /// The atlas of the frame, for which a texture was made where there was none to use again.
    pub fn texture_with(&self, made: u64) -> (texture: AtlasTexture)
        ensures
            texture == self.spec_texture_with(made),
    {
        let handle: u64 = match self.reused {
            Some(handle) => handle,
            None => made,
        };
        AtlasTexture { width: self.texture.width, height: self.texture.height, handle }
    }
}

impl SceneStep {
    /// The scene buffer of the frame, which was made where there was none to use again.
    pub open spec fn spec_buffer_with(self, made: u64) -> SizedBuffer {
        match self {
            SceneStep::Reuse(buffer) => buffer,
            SceneStep::Acquire { bucket, .. } => SizedBuffer { size: bucket, handle: made },
        }
    }

    /// The scene buffer of the frame, which was made where there was none to use again.
    pub fn buffer_with(&self, made: u64) -> (buffer: SizedBuffer)
        ensures
            buffer == self.spec_buffer_with(made),
    {
        match *self {
            SceneStep::Reuse(buffer) => buffer,
            SceneStep::Acquire { bucket, .. } => SizedBuffer { size: bucket, handle: made },
        }
    }
}

impl BumpStep {
    /// The bump buffer of the frame, which was made where there was none to use again.
    pub open spec fn spec_buffer_with(self, made: u64) -> SizedBuffer {
        match self {
            BumpStep::Reuse(buffer) => buffer,
            BumpStep::Acquire { size, .. } => SizedBuffer { size, handle: made },
        }
    }

    /// The bump buffer of the frame, which was made where there was none to use again.
    pub fn buffer_with(&self, made: u64) -> (buffer: SizedBuffer)
        ensures
            buffer == self.spec_buffer_with(made),
    {
        match *self {
            BumpStep::Reuse(buffer) => buffer,
            BumpStep::Acquire { size, .. } => SizedBuffer { size, handle: made },
        }
    }
}

/// What was made for a plan. A field whose resource is used again says nothing.
pub struct MadeResources {
    pub gradient: u64,
    pub image_atlas: u64,
    pub mask_atlas: u64,
    pub scene: u64,
    pub config: u64,
    /// The buffers that were asked for, in the order of the requests.
    pub stable: Vec<u64>,
    pub scratch: Vec<u64>,
    pub bump: u64,
    pub out_image: Option<TargetTexture>,
    pub filter_layers: [TargetTexture; 4],
}

impl MadeResources {
    /// Every buffer that the plan asks for was made.
    pub open spec fn answers(self, plan: PreparePlan) -> bool {
        &&& plan.pipeline.stable is Acquire ==> self.stable@.len() == 7
        &&& plan.pipeline.scratch is Acquire ==> self.scratch@.len() == 14
    }
}

impl PipelineResources {
    /// The resources follow from the plan and from what was made for it.
    pub open spec fn follows(
        self,
        plan: PreparePlan,
        made: MadeResources,
        params: RenderParams,
        config: RenderConfig,
    ) -> bool {
        &&& self.gradient == plan.gradient.spec_texture_with(made.gradient).handle
        &&& self.image_atlas == plan.image_atlas.spec_texture_with(made.image_atlas).handle
        &&& self.mask_atlas == plan.mask_atlas.spec_texture_with(made.mask_atlas).handle
        &&& self.scene == plan.scene.spec_buffer_with(made.scene)
        &&& self.config == (match plan.config {
            Some(handle) => handle,
            None => made.config,
        })
        &&& self.indirect is None
        &&& match plan.pipeline.stable {
            BufferStep::Reuse(buffers) => self.stable == buffers,
            BufferStep::Acquire(_) => self.stable.spec_handles() == made.stable@,
        }
        &&& match plan.pipeline.scratch {
            BufferStep::Reuse(buffers) => self.scratch == buffers,
            BufferStep::Acquire(_) => self.scratch.spec_handles() == made.scratch@,
        }
        &&& self.bump == plan.bump.spec_buffer_with(made.bump)
        &&& match plan.targets {
            TargetStep::Reuse(targets) => self.out_image == targets.out && self.filter_layers == targets.layers,
            TargetStep::Acquire { .. } => self.out_image == made.out_image && self.filter_layers == made.filter_layers,
        }
        &&& self.frame_width == params.width
        &&& self.frame_height == params.height
        &&& self.buffer_sizes == config.buffer_sizes
        &&& self.config_uniform_value == plan.config_value
    }

    /// Brings together what a plan uses again and what was made for it.
    pub fn assemble(
        plan: &PreparePlan,
        made: &MadeResources,
        params: &RenderParams,
        config: &RenderConfig,
    ) -> (r: PipelineResources)
        requires
            made.answers(*plan),
        ensures
            r.follows(*plan, *made, *params, *config),
    {
        let config_buffer: u64 = match plan.config {
            Some(handle) => handle,
            None => made.config,
        };
        let stable: StablePipelineBuffers = match &plan.pipeline.stable {
            BufferStep::Reuse(buffers) => *buffers,
            BufferStep::Acquire(_) => StablePipelineBuffers::from_handles(made.stable.as_slice()),
        };
        let scratch: ScratchPipelineBuffers = match &plan.pipeline.scratch {
            BufferStep::Reuse(buffers) => *buffers,
            BufferStep::Acquire(_) => ScratchPipelineBuffers::from_handles(made.scratch.as_slice()),
        };
        let (out_image, filter_layers) = match plan.targets {
            TargetStep::Reuse(targets) => (targets.out, targets.layers),
            TargetStep::Acquire { .. } => (made.out_image, made.filter_layers),
        };
        PipelineResources {
            gradient: plan.gradient.texture_with(made.gradient).handle,
            image_atlas: plan.image_atlas.texture_with(made.image_atlas).handle,
            mask_atlas: plan.mask_atlas.texture_with(made.mask_atlas).handle,
            scene: plan.scene.buffer_with(made.scene),
            config: config_buffer,
            indirect: None,
            stable,
            scratch,
            bump: plan.bump.buffer_with(made.bump),
            out_image,
            filter_layers,
            frame_width: params.width,
            frame_height: params.height,
            buffer_sizes: config.buffer_sizes,
            config_uniform_value: plan.config_value,
        }
    }

    /// The handle that a binding of a buffer stands for. The workgroup counts are part of the
    /// indirect buffer; the mask table is there where the rasterizer needs one.
    pub open spec fn handle_of(self, buffer: PipelineBuffer, indirect: u64, mask: Option<u64>) -> Option<u64> {
        match buffer {
            PipelineBuffer::Config => Some(self.config),
            PipelineBuffer::Scene => Some(self.scene.handle),
            PipelineBuffer::Bump => Some(self.bump.handle),
            PipelineBuffer::WgCounts | PipelineBuffer::Indirect => Some(indirect),
            PipelineBuffer::Reduced => Some(self.scratch.reduced),
            PipelineBuffer::Reduced2 => Some(self.scratch.reduced2),
            PipelineBuffer::ReducedScan => Some(self.scratch.reduced_scan),
            PipelineBuffer::TagMonoid => Some(self.scratch.tagmonoid),
            PipelineBuffer::PathBbox => Some(self.scratch.path_bbox),
            PipelineBuffer::Lines => Some(self.stable.lines),
            PipelineBuffer::DrawReduced => Some(self.scratch.draw_reduced),
            PipelineBuffer::DrawMonoid => Some(self.scratch.draw_monoid),
            PipelineBuffer::InfoBinData => Some(self.stable.info_bin_data),
            PipelineBuffer::ClipInp => Some(self.scratch.clip_inp),
            PipelineBuffer::ClipBic => Some(self.scratch.clip_bic),
            PipelineBuffer::ClipEl => Some(self.scratch.clip_el),
            PipelineBuffer::ClipBbox => Some(self.scratch.clip_bbox),
            PipelineBuffer::DrawBbox => Some(self.scratch.draw_bbox),
            PipelineBuffer::BinHeader => Some(self.scratch.bin_header),
            PipelineBuffer::Path => Some(self.scratch.path),
            PipelineBuffer::Tile => Some(self.stable.tile),
            PipelineBuffer::SegCounts => Some(self.stable.seg_counts),
            PipelineBuffer::Ptcl => Some(self.stable.ptcl),
            PipelineBuffer::Segments => Some(self.stable.segments),
            PipelineBuffer::BlendSpill => Some(self.stable.blend_spill),
            PipelineBuffer::MaskLut => mask,
        }
    }

    /// The handle that a binding of a buffer stands for.
    pub fn buffer_handle(&self, buffer: PipelineBuffer, indirect: u64, mask: Option<u64>) -> (handle: Option<u64>)
        ensures
            handle == self.handle_of(buffer, indirect, mask),
    {
        let handle: u64 = match buffer {
            PipelineBuffer::Config => self.config,
            PipelineBuffer::Scene => self.scene.handle,
            PipelineBuffer::Bump => self.bump.handle,
            PipelineBuffer::WgCounts | PipelineBuffer::Indirect => indirect,
            PipelineBuffer::Reduced => self.scratch.reduced,
            PipelineBuffer::Reduced2 => self.scratch.reduced2,
            PipelineBuffer::ReducedScan => self.scratch.reduced_scan,
            PipelineBuffer::TagMonoid => self.scratch.tagmonoid,
            PipelineBuffer::PathBbox => self.scratch.path_bbox,
            PipelineBuffer::Lines => self.stable.lines,
            PipelineBuffer::DrawReduced => self.scratch.draw_reduced,
            PipelineBuffer::DrawMonoid => self.scratch.draw_monoid,
            PipelineBuffer::InfoBinData => self.stable.info_bin_data,
            PipelineBuffer::ClipInp => self.scratch.clip_inp,
            PipelineBuffer::ClipBic => self.scratch.clip_bic,
            PipelineBuffer::ClipEl => self.scratch.clip_el,
            PipelineBuffer::ClipBbox => self.scratch.clip_bbox,
            PipelineBuffer::DrawBbox => self.scratch.draw_bbox,
            PipelineBuffer::BinHeader => self.scratch.bin_header,
            PipelineBuffer::Path => self.scratch.path,
            PipelineBuffer::Tile => self.stable.tile,
            PipelineBuffer::SegCounts => self.stable.seg_counts,
            PipelineBuffer::Ptcl => self.stable.ptcl,
            PipelineBuffer::Segments => self.stable.segments,
            PipelineBuffer::BlendSpill => self.stable.blend_spill,
            PipelineBuffer::MaskLut => return mask,
        };
        Some(handle)
    }

    /// The handle that a binding of a texture stands for, where the texture is one of the pipeline's.
    /// The others live for the length of one recording.
    pub fn texture_handle(&self, slot: TextureSlot) -> (handle: Option<u64>)
        ensures
            handle == (match slot {
                TextureSlot::OutImage => match self.out_image {
                    Some(texture) => Some(texture.handle),
                    None => None,
                },
                TextureSlot::Gradient => Some(self.gradient),
                TextureSlot::ImageAtlas => Some(self.image_atlas),
                TextureSlot::MaskAtlas => Some(self.mask_atlas),
                TextureSlot::FilterLayer(i) => if i < 4 {
                    Some(self.filter_layers[i as int].handle)
                } else {
                    None
                },
                _ => None,
            }),
            slot is Gradient ==> handle == Some(self.gradient),
            slot is ImageAtlas ==> handle == Some(self.image_atlas),
            slot is MaskAtlas ==> handle == Some(self.mask_atlas),
            slot is OutImage ==> handle is Some == self.out_image is Some && (self.out_image matches Some(texture)
                ==> handle == Some(texture.handle)),
            slot matches TextureSlot::FilterLayer(i) ==> i < 4 ==> handle == Some(self.filter_layers@[i as int].handle),
    {
        match slot {
            TextureSlot::OutImage => match self.out_image {
                Some(texture) => Some(texture.handle),
                None => None,
            },
            TextureSlot::Gradient => Some(self.gradient),
            TextureSlot::ImageAtlas => Some(self.image_atlas),
            TextureSlot::MaskAtlas => Some(self.mask_atlas),
            TextureSlot::FilterLayer(i) => if i < 4 {
                Some(self.filter_layers[i].handle)
            } else {
                None
            },
            _ => None,
        }
    }

    /// The resources that a recorded worker holds on to.
    pub fn worker_handles(&self) -> (handles: WorkerResourceHandles)
        ensures
            handles == (WorkerResourceHandles {
                scene: self.scene.handle,
                bump: self.bump.handle,
                gradient: self.gradient,
                image_atlas: self.image_atlas,
                mask_atlas: self.mask_atlas,
                out_image: match self.out_image {
                    Some(texture) => Some(texture.handle),
                    None => None,
                },
            }),
            handles.scene == self.scene.handle && handles.bump == self.bump.handle,
            handles.gradient == self.gradient && handles.image_atlas == self.image_atlas,
            handles.mask_atlas == self.mask_atlas,
            handles.out_image is Some == self.out_image is Some,
    {
        let out_image: Option<u64> = match self.out_image {
            Some(texture) => Some(texture.handle),
            None => None,
        };
        WorkerResourceHandles {
            scene: self.scene.handle,
            bump: self.bump.handle,
            gradient: self.gradient,
            image_atlas: self.image_atlas,
            mask_atlas: self.mask_atlas,
            out_image,
        }
    }
}

} // verus!
