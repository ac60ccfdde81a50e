//! The retained renderer's decisions in the course of a frame.
//!
//! A frame goes through three points at which the renderer decides: before its resources are
//! acquired, when it is known whether the retained worker can be submitted again, and when the
//! work has been submitted.

use crate::config::{BumpAllocators, RenderConfig};
use crate::coverage_mask::CoverageMask;
use crate::filter::LayerFilterEffect;
use crate::goldy_renderer::{
    sane_counters_can_grow, sanitize_bump, sanitized, within_cap, FrameStats, PersistentState, PreparedFrame,
    SceneGrowthStats, SchemeTargets, SizedBuffer, Submission, TargetTexture, MAX_BUMP_RETRIES,
};
use crate::image::ImageData;
use crate::layout::Layout;
use crate::math::{max_int, max_u32};
use crate::pixels::{unpad_rows, CopyLayout};
use crate::recording::Binding;
use crate::resource_proxy::{bind_type_to_node_access, BindType, NodeAccess, TextureFormat};
use crate::scheme_gpu_resources::{
    bump_step, pipeline_step_for, BufferStep, BumpStep, CachedPipeline, PipelineResources, PipelineStep,
};
use crate::worker_retention::{
    is_bucket_of, note_scene_growth_frame, note_upload_rerecord_scene_bucket,
    note_worker_rerecord_scene_bucket, resource_dims, scene_size_bucket, topology_of, upload_is_stale,
    upload_key_from, upload_stale, worker_is_stale, worker_stale_reasons, worker_topology, Region, ResourceDims,
    UploadKey, WorkerResourceHandles, WorkerTopology,
};
use crate::{Error, RenderParams};
use vstd::prelude::*;
use vstd::string::*;

verus! {

/// The renderer: what survives across frames, and what the frames so far have taught it.
pub struct SchemeRenderer {
    pub persistent: PersistentState,
    /// Persistent bump estimates: running max across frames.
    pub persistent_bump: Option<BumpAllocators>,
    /// Frame counter for rate-limiting housekeeping operations.
    pub cleanup_frame_counter: u64,
    /// How often a worker has been recorded, over all workers so far.
    pub worker_record_epochs: u64,
    /// How often an upload scheme has been recorded, over all upload schemes so far.
    pub upload_record_epochs: u64,
}

/// The counters tell nothing: none counts anything, and none overflowed.
pub open spec fn tells_nothing(bump: BumpAllocators) -> bool {
    &&& bump.lines == 0
    &&& bump.seg_counts == 0
    &&& bump.segments == 0
    &&& bump.tile == 0
    &&& bump.binning == 0
    &&& bump.ptcl == 0
    &&& bump.blend == 0
    &&& bump.failed == 0
}

/// The larger of each two counters; whether an allocation failed is not kept.
pub open spec fn running_max(known: Option<BumpAllocators>, bump: BumpAllocators) -> BumpAllocators {
    match known {
        Some(p) => BumpAllocators {
            failed: p.failed,
            binning: max_int(p.binning as int, bump.binning as int) as u32,
            ptcl: max_int(p.ptcl as int, bump.ptcl as int) as u32,
            tile: max_int(p.tile as int, bump.tile as int) as u32,
            seg_counts: max_int(p.seg_counts as int, bump.seg_counts as int) as u32,
            segments: max_int(p.segments as int, bump.segments as int) as u32,
            blend: max_int(p.blend as int, bump.blend as int) as u32,
            lines: max_int(p.lines as int, bump.lines as int) as u32,
            active_tiles: p.active_tiles,
        },
        None => BumpAllocators { failed: 0, active_tiles: 0, ..bump },
    }
}

/// Every counter that sizes a buffer is at least as large in `b` as in `a`.
pub open spec fn covers(b: BumpAllocators, a: BumpAllocators) -> bool {
    &&& b.binning >= a.binning
    &&& b.ptcl >= a.ptcl
    &&& b.tile >= a.tile
    &&& b.seg_counts >= a.seg_counts
    &&& b.segments >= a.segments
    &&& b.blend >= a.blend
    &&& b.lines >= a.lines
}

/// A frame for a swapchain that retains the worker has the grant to present it.
pub proof fn retained_frames_are_presented(
    renderer: SchemeRenderer,
    topology: WorkerTopology,
    effects: Seq<LayerFilterEffect>,
    out_image: Option<u64>,
    output_texture: Option<u64>,
)
    requires
        renderer.wf(),
        topology.swapchain_present,
        !worker_is_stale(renderer.persistent, topology, effects, out_image, output_texture),
    ensures
        renderer.recorded_for_swapchain(),
        renderer.persistent.cached_present_tx is Some,
{
}

/// The estimates never shrink, and they cover what the last frame used.
pub proof fn estimates_only_grow(known: Option<BumpAllocators>, bump: BumpAllocators)
    ensures
        covers(running_max(known, bump), bump),
        known matches Some(p) ==> covers(running_max(known, bump), p),
{
}

impl SchemeRenderer {
    /// The estimates have been sanitized.
    pub open spec fn estimates_sane(self) -> bool {
        self.persistent_bump matches Some(bump) ==> within_cap(bump)
    }

    /// A retained worker that was recorded for a swapchain still has its grant to present.
    pub open spec fn worker_presents(self) -> bool {
        self.recorded_for_swapchain() ==> self.persistent.cached_present_tx is Some
    }

    /// The retained worker was recorded for a swapchain.
    pub open spec fn recorded_for_swapchain(self) -> bool {
        self.persistent.cached_worker_topology matches Some(t) && t.swapchain_present
    }

    /// What holds between frames. Of a frame that fails while its worker is being recorded only the
    /// estimates are left in order.
    pub open spec fn wf(self) -> bool {
        self.estimates_sane() && self.worker_presents()
    }

    /// A renderer that has rendered nothing yet.
    pub fn new(metal_heap_sensitive: bool) -> (r: Self)
        ensures
            r.wf(),
            r.persistent_bump is None,
            r.cleanup_frame_counter == 0,
            r.worker_record_epochs == 0,
            r.upload_record_epochs == 0,
            r.persistent.cached_worker_topology is None,
            r.persistent.cached_upload_key is None,
            r.persistent.metal_heap_sensitive == metal_heap_sensitive,
    {
        SchemeRenderer {
            persistent: PersistentState::new(metal_heap_sensitive),
            persistent_bump: None,
            cleanup_frame_counter: 0,
            worker_record_epochs: 0,
            upload_record_epochs: 0,
        }
    }

    /// Worker records across worker replacements.
    pub fn worker_record_epochs(&self) -> (n: u64)
        ensures
            n == self.worker_record_epochs,
    {
        self.worker_record_epochs
    }

    /// Upload scheme records across upload replacements.
    pub fn upload_record_epochs(&self) -> (n: u64)
        ensures
            n == self.upload_record_epochs,
    {
        self.upload_record_epochs
    }

    /// Counts a worker that has been recorded.
    pub fn note_worker_record(&mut self)
        requires
            old(self).worker_record_epochs < u64::MAX,
        ensures
            *final(self) == (SchemeRenderer {
                worker_record_epochs: (old(self).worker_record_epochs + 1) as u64,
                ..*old(self)
            }),
    {
        self.worker_record_epochs = self.worker_record_epochs + 1;
    }

    /// Raises the estimates to what a frame used.
    pub fn update_persistent_bump(&mut self, bump: &BumpAllocators)
        requires
            old(self).estimates_sane(),
            within_cap(*bump),
        ensures
            final(self).estimates_sane(),
            *final(self) == (SchemeRenderer {
                persistent_bump: Some(running_max(old(self).persistent_bump, *bump)),
                ..*old(self)
            }),
            final(self).persistent_bump matches Some(known) && covers(known, *bump),
            old(self).persistent_bump matches Some(was) ==> (final(self).persistent_bump matches Some(known) && covers(
                known,
                was,
            )),
    {
        proof {
            estimates_only_grow(self.persistent_bump, *bump);
        }
        let p: BumpAllocators = match self.persistent_bump {
            Some(p) => p,
            None => BumpAllocators {
                failed: 0,
                binning: 0,
                ptcl: 0,
                tile: 0,
                seg_counts: 0,
                segments: 0,
                blend: 0,
                lines: 0,
                active_tiles: 0,
            },
        };
        self.persistent_bump = Some(
            BumpAllocators {
                failed: p.failed,
                binning: max_u32(p.binning, bump.binning),
                ptcl: max_u32(p.ptcl, bump.ptcl),
                tile: max_u32(p.tile, bump.tile),
                seg_counts: max_u32(p.seg_counts, bump.seg_counts),
                segments: max_u32(p.segments, bump.segments),
                blend: max_u32(p.blend, bump.blend),
                lines: max_u32(p.lines, bump.lines),
                active_tiles: p.active_tiles,
            },
        );
    }

    /// Takes the counters of the previous frame into account.
    ///
    /// Counters that are all zero are likely stale and are ignored. Others raise the estimates;
    /// where an allocation failed, this frame also counts as a retry and gets a configuration
    /// that is grown to the counters.
    pub fn apply_bump_feedback(
        &mut self,
        prev_bump: Option<BumpAllocators>,
        layout: &Layout,
        params: &RenderParams,
        config: &mut RenderConfig,
        stats: &mut FrameStats,
    )
        requires
            old(self).estimates_sane(),
            RenderConfig::can_configure(*layout, params.width, params.height),
            old(stats).bump_retries < u32::MAX,
        ensures
            final(self).estimates_sane(),
            match prev_bump {
                Some(bump) if !tells_nothing(bump) => {
                    &&& *final(self) == (SchemeRenderer {
                        persistent_bump: Some(running_max(old(self).persistent_bump, sanitized(bump))),
                        ..*old(self)
                    })
                    &&& if bump.failed != 0 {
                        &&& final(stats).bump_retries == old(stats).bump_retries + 1
                        &&& exists|base: RenderConfig|
                            #![trigger base.estimated(sanitized(bump), *final(config))]
                            base.configured_for(*layout, params.width, params.height, params.base_color)
                                && base.estimated(sanitized(bump), *final(config))
                    } else {
                        *final(stats) == *old(stats) && *final(config) == *old(config)
                    }
                },
                _ => *final(self) == *old(self) && *final(stats) == *old(stats) && *final(config) == *old(config),
            },
            prev_bump matches Some(bump) ==> bump.failed != 0 ==> (final(self).persistent_bump matches Some(known) && covers(
                known,
                sanitized(bump),
            )),
            prev_bump matches Some(bump) ==> bump.failed == 0 ==> *final(config) == *old(config),
            prev_bump is None ==> *final(config) == *old(config) && *final(self) == *old(self),
    {
        if let Some(bump) = prev_bump {
            let any_nonzero: bool = bump.lines > 0 || bump.seg_counts > 0 || bump.segments > 0 || bump.tile > 0
                || bump.binning > 0 || bump.ptcl > 0 || bump.blend > 0;
            if any_nonzero || bump.failed != 0 {
                let sane: BumpAllocators = sanitize_bump(&bump);
                self.update_persistent_bump(&sane);
                if bump.failed != 0 {
                    stats.bump_retries = stats.bump_retries + 1;
                    let base: RenderConfig = RenderConfig::new(
                        layout,
                        params.width,
                        params.height,
                        &params.base_color,
                    );
                    proof {
                        sane_counters_can_grow(base, *layout, sane);
                    }
                    *config = base.with_bump_estimates(&sane);
                }
            }
        }
    }

    /// The configuration of a frame, with buffers of the estimated sizes.
    pub open spec fn frame_config(self, layout: Layout, params: RenderParams, config: RenderConfig) -> bool {
        match self.persistent_bump {
            Some(bump) => exists|base: RenderConfig|
                #![trigger base.estimated(bump, config)]
                base.configured_for(layout, params.width, params.height, params.base_color) && base.estimated(
                    bump,
                    config,
                ),
            None => config.configured_for(layout, params.width, params.height, params.base_color),
        }
    }

    /// Puts a resolved scene together with its configuration. `robust` overrides the parameters
    /// where it is given.
    pub fn prepare(
        &self,
        params: &RenderParams,
        robust: Option<bool>,
        packed: Vec<u8>,
        layout: Layout,
        ramps: (Vec<u32>, u32, u32),
        images: (Vec<(ImageData, u32, u32)>, u32, u32),
        coverage_mask: Option<CoverageMask>,
        layer_filter_effects: Vec<LayerFilterEffect>,
    ) -> (frame: PreparedFrame)
        requires
            self.estimates_sane(),
            RenderConfig::can_configure(layout, params.width, params.height),
        ensures
            self.frame_config(layout, *params, frame.config),
            frame.params == (RenderParams {
                robust: match robust {
                    Some(r) => r,
                    None => params.robust,
                },
                ..*params
            }),
            crate::retention_laws::gradient_size(frame) == (if ramps.2 == 0 {
                (1u32, 1u32)
            } else {
                (ramps.1, ramps.2)
            }),
            crate::retention_laws::images_size(frame) == (if images.0@.len() == 0 {
                (1u32, 1u32)
            } else {
                (images.1, images.2)
            }),
            frame.params.width == params.width && frame.params.height == params.height,
            frame.params.antialiasing_method == params.antialiasing_method,
            frame.params.base_color == params.base_color,
            robust is None ==> frame.params.robust == params.robust,
            robust matches Some(r) ==> frame.params.robust == r,
            frame.packed == packed,
            frame.layout == layout,
            frame.ramps_data == ramps.0,
            frame.ramps_width == ramps.1,
            frame.ramps_height == ramps.2,
            frame.image_entries == images.0,
            frame.images_width == images.1,
            frame.images_height == images.2,
            frame.coverage_mask == coverage_mask,
            frame.layer_filter_effects == layer_filter_effects,
    {
        let base: RenderConfig = RenderConfig::new(&layout, params.width, params.height, &params.base_color);
        let config: RenderConfig = match &self.persistent_bump {
            Some(bump) => {
                proof {
                    sane_counters_can_grow(base, layout, *bump);
                }
                base.with_bump_estimates(bump)
            },
            None => base,
        };
        let frame_params: RenderParams = match robust {
            Some(r) => RenderParams { robust: r, ..*params },
            None => *params,
        };
        PreparedFrame {
            packed,
            layout,
            ramps_data: ramps.0,
            ramps_width: ramps.1,
            ramps_height: ramps.2,
            images_width: images.1,
            images_height: images.2,
            image_entries: images.0,
            config,
            params: frame_params,
            coverage_mask,
            layer_filter_effects,
        }
    }
}

/// What is decided before the resources of a frame are acquired.
pub struct FrameStart {
    /// Time to trim the pools, which happens once in a while.
    pub housekeeping: bool,
    pub make_linear_sampler: bool,
    pub make_nearest_sampler: bool,
    pub topology: WorkerTopology,
    pub upload_key: UploadKey,
    /// The upload scheme is replaced, and its copies are recorded anew.
    pub upload_needs_record: bool,
    pub stats: FrameStats,
}

/// The regions that the images take up in the atlas.
pub open spec fn regions_of(images: Seq<(ImageData, u32, u32)>) -> Seq<Region> {
    images.map_values(|e: (ImageData, u32, u32)| crate::scheme_gpu_resources::region_of(e))
}

fn list_regions(images: &Vec<(ImageData, u32, u32)>) -> (regions: Vec<Region>)
    ensures
        regions@ == regions_of(images@),
{
    let mut regions: Vec<Region> = Vec::new();
    let mut i: usize = 0;
    while i < images.len()
        invariant
            i <= images.len(),
            regions@ == regions_of(images@).take(i as int),
        decreases images.len() - i,
    {
        let entry: &(ImageData, u32, u32) = &images[i];
        regions.push((entry.1, entry.2, entry.0.width, entry.0.height));
        assert(regions@ =~= regions_of(images@).take(i as int + 1));
        i = i + 1;
    }
    assert(regions_of(images@).take(i as int) =~= regions_of(images@));
    regions
}

/// The dimensions are those of the frame.
pub open spec fn dims_of_frame(frame: PreparedFrame, dims: ResourceDims) -> bool {
    &&& is_bucket_of(dims.scene_bucket as int, frame.packed@.len() as int)
    &&& (dims.gradient_width, dims.gradient_height) == crate::worker_retention::gradient_atlas(
        frame.ramps_width,
        frame.ramps_height,
    )
    &&& (dims.image_atlas_width, dims.image_atlas_height) == crate::worker_retention::image_atlas(
        frame.image_entries@.len() as usize,
        frame.images_width,
        frame.images_height,
    )
    &&& (dims.mask_atlas_width, dims.mask_atlas_height) == crate::worker_retention::mask_atlas(mask_dims(frame))
    &&& dims.image_count == frame.image_entries@.len()
    &&& crate::worker_retention::sorted_unique(dims.image_regions@)
    &&& forall|r: Region| dims.image_regions@.contains(r) == regions_of(frame.image_entries@).contains(r)
    &&& dims.ramps_width == frame.ramps_width
    &&& dims.ramps_height == frame.ramps_height
    &&& dims.images_width == frame.images_width
    &&& dims.images_height == frame.images_height
    &&& dims.has_coverage_mask == (frame.coverage_mask is Some)
}

/// Size of the coverage mask of a frame.
pub open spec fn mask_dims(frame: PreparedFrame) -> Option<(u32, u32)> {
    match frame.coverage_mask {
        Some(m) => Some((m.width, m.height)),
        None => None,
    }
}

/// The key names the upload targets of the dimensions.
pub open spec fn key_of(dims: ResourceDims, key: UploadKey) -> bool {
    &&& key.scene_bucket == dims.scene_bucket
    &&& key.gradient_width == dims.gradient_width
    &&& key.gradient_height == dims.gradient_height
    &&& key.image_atlas_width == dims.image_atlas_width
    &&& key.image_atlas_height == dims.image_atlas_height
    &&& key.mask_atlas_width == dims.mask_atlas_width
    &&& key.mask_atlas_height == dims.mask_atlas_height
    &&& key.image_regions@ == dims.image_regions@
}

/// The grants that recording the worker left behind.
#[derive(Clone, Copy, Debug, PartialEq, Eq)]
pub struct WorkerRecord {
    /// For presenting, where the frame goes to a swapchain.
    pub present: Option<u64>,
    /// For reading the counters, in a robust frame.
    pub bump: Option<u64>,
    pub resources: WorkerResourceHandles,
    /// Filter passes of the recorded worker.
    pub filter_passes: usize,
}

/// What is left to do when a frame has been submitted.
#[derive(Debug)]
pub struct FrameEnd {
    pub stats: FrameStats,
    /// The grant and the submission to present.
    pub present: Option<(u64, Submission)>,
    /// Filter uniform buffers of passes that are no longer there.
    pub released_uniforms: Vec<u64>,
}

impl SchemeRenderer {
    /// The counters that limit how long the renderer can run have room for one more frame.
    pub open spec fn can_count_frame(self) -> bool {
        &&& self.persistent.scene_growth.frames < u64::MAX
        &&& self.persistent.scene_growth.upload_rerecord_scene_bucket < u64::MAX
        &&& self.persistent.scene_growth.worker_rerecord_scene_bucket < u64::MAX
        &&& self.persistent.scene_growth.scene_bucket_crossings < u64::MAX
        &&& self.worker_record_epochs < u64::MAX
        &&& self.upload_record_epochs < u64::MAX
    }

    /// Whether the counters have room for one more frame.
    pub fn has_room_for_frame(&self) -> (b: bool)
        ensures
            b == self.can_count_frame(),
    {
        let growth: &SceneGrowthStats = &self.persistent.scene_growth;
        growth.frames < u64::MAX && growth.upload_rerecord_scene_bucket < u64::MAX
            && growth.worker_rerecord_scene_bucket < u64::MAX && growth.scene_bucket_crossings < u64::MAX
            && self.worker_record_epochs < u64::MAX && self.upload_record_epochs < u64::MAX
    }

    /// The estimates after the counters of the previous frame have been taken into account.
    pub open spec fn estimates_after(self, prev_bump: Option<BumpAllocators>) -> Option<BumpAllocators> {
        match prev_bump {
            Some(bump) if !tells_nothing(bump) => Some(running_max(self.persistent_bump, sanitized(bump))),
            _ => self.persistent_bump,
        }
    }

    /// The first decisions of a frame: the counters of the previous frame are taken into account,
    /// and the node graph and the upload targets of the frame are worked out. An upload scheme
    /// that was recorded for other targets is replaced, and its declarations are dropped.
    pub fn start_frame(
        &mut self,
        frame: &mut PreparedFrame,
        out_image_format: TextureFormat,
        swapchain_present: bool,
        direct_present: bool,
    ) -> (start: FrameStart)
        requires
            old(self).estimates_sane(),
            old(self).can_count_frame(),
            RenderConfig::can_configure(old(frame).layout, old(frame).params.width, old(frame).params.height),
            old(frame).packed@.len() <= 0x8000_0000_0000_0000,
        ensures
            final(self).estimates_sane(),
            old(self).wf() ==> final(self).wf(),
            start.topology.swapchain_present == swapchain_present,
            start.topology.direct_present == direct_present,
            start.topology.out_format == out_image_format,
            start.topology.width == old(frame).params.width && start.topology.height == old(frame).params.height,
            start.topology.aa == old(frame).params.antialiasing_method,
            start.topology.scene_bucket == start.upload_key.scene_bucket,
            old(frame).packed@.len() <= start.upload_key.scene_bucket,
            start.housekeeping == (final(self).cleanup_frame_counter % 64 == 0),
            start.housekeeping <==> final(self).cleanup_frame_counter as int / 64 * 64 == final(self).cleanup_frame_counter,
            start.make_linear_sampler == (old(self).persistent.linear_clamp_sampler is None),
            start.make_nearest_sampler == (old(self).persistent.nearest_clamp_sampler is None),
            *final(frame) == (PreparedFrame { config: final(frame).config, ..*old(frame) }),
            match old(self).persistent.last_drained_bump {
                Some(bump) if bump.failed != 0 => {
                    &&& start.stats.bump_retries == 1
                    &&& exists|base: RenderConfig|
                        #![trigger base.estimated(sanitized(bump), final(frame).config)]
                        base.configured_for(
                            old(frame).layout,
                            old(frame).params.width,
                            old(frame).params.height,
                            old(frame).params.base_color,
                        ) && base.estimated(sanitized(bump), final(frame).config)
                },
                _ => start.stats.bump_retries == 0 && *final(frame) == *old(frame),
            },
            exists|dims: ResourceDims|
                #![trigger dims_of_frame(*old(frame), dims)]
                {
                    &&& dims_of_frame(*old(frame), dims)
                    &&& key_of(dims, start.upload_key)
                    &&& start.topology == topology_of(
                        final(frame).params,
                        final(frame).config,
                        out_image_format,
                        dims,
                        swapchain_present,
                        direct_present,
                    )
                },
            start.upload_needs_record == upload_is_stale(old(self).persistent, start.upload_key),
            final(self).cleanup_frame_counter == (old(self).cleanup_frame_counter + 1) % 0x1_0000_0000_0000_0000,
            final(self).persistent_bump == old(self).estimates_after(old(self).persistent.last_drained_bump),
            final(self).worker_record_epochs == old(self).worker_record_epochs,
            final(self).upload_record_epochs == old(self).upload_record_epochs + (if start.upload_needs_record {
                1int
            } else {
                0int
            }),
            final(self).persistent.scene_growth == (SceneGrowthStats {
                frames: (old(self).persistent.scene_growth.frames + 1) as u64,
                current_scene_bucket: start.upload_key.scene_bucket,
                peak_scene_bucket: max_int(
                    old(self).persistent.scene_growth.peak_scene_bucket as int,
                    start.upload_key.scene_bucket as int,
                ) as u64,
                peak_live_scene_bytes: max_int(
                    old(self).persistent.scene_growth.peak_live_scene_bytes as int,
                    old(frame).packed@.len() as int,
                ) as u64,
                upload_rerecord_scene_bucket: if old(self).persistent.cached_upload_key matches Some(key)
                    && key.scene_bucket != start.upload_key.scene_bucket {
                    (old(self).persistent.scene_growth.upload_rerecord_scene_bucket + 1) as u64
                } else {
                    old(self).persistent.scene_growth.upload_rerecord_scene_bucket
                },
                ..old(self).persistent.scene_growth
            }),
            !start.upload_needs_record ==> final(self).persistent == (PersistentState {
                last_drained_bump: None,
                scene_growth: final(self).persistent.scene_growth,
                ..old(self).persistent
            }),
            start.upload_needs_record ==> {
                &&& final(self).persistent.cached_image_region_uploads@.len() == 0
                &&& final(self).persistent == (PersistentState {
                    last_drained_bump: None,
                    scene_growth: final(self).persistent.scene_growth,
                    cached_scene_upload: None,
                    cached_config_upload: None,
                    cached_gradient_upload: None,
                    cached_mask_upload: None,
                    cached_image_region_uploads: final(self).persistent.cached_image_region_uploads,
                    ..old(self).persistent
                })
            },
    {
        self.cleanup_frame_counter = self.cleanup_frame_counter.wrapping_add(1);
        let housekeeping: bool = self.cleanup_frame_counter % 64 == 0;
        let prev_bump: Option<BumpAllocators> = self.persistent.take_last_drained_bump();
        let mut stats: FrameStats = FrameStats { bump_retries: 0 };
        let mut config: RenderConfig = frame.config;
        self.apply_bump_feedback(prev_bump, &frame.layout, &frame.params, &mut config, &mut stats);
        frame.config = config;
        let scene_bucket: u64 = scene_size_bucket(frame.packed.len());
        let mask: Option<(u32, u32)> = match &frame.coverage_mask {
            Some(m) => Some((m.width, m.height)),
            None => None,
        };
        let regions: Vec<Region> = list_regions(&frame.image_entries);
        let dims: ResourceDims = resource_dims(
            scene_bucket,
            frame.ramps_width,
            frame.ramps_height,
            frame.image_entries.len(),
            frame.images_width,
            frame.images_height,
            mask,
            regions.as_slice(),
        );
        assert(dims_of_frame(*old(frame), dims));
        let topology: WorkerTopology = worker_topology(
            &frame.params,
            &frame.config,
            out_image_format,
            &dims,
            swapchain_present,
            direct_present,
        );
        let upload_key: UploadKey = upload_key_from(&dims);
        note_scene_growth_frame(&mut self.persistent.scene_growth, frame.packed.len(), scene_bucket);
        let upload_needs_record: bool = upload_stale(&self.persistent, &upload_key);
        if upload_needs_record {
            let bucket_changed: bool = match &self.persistent.cached_upload_key {
                Some(key) => key.scene_bucket != upload_key.scene_bucket,
                None => false,
            };
            if bucket_changed {
                note_upload_rerecord_scene_bucket(&mut self.persistent.scene_growth);
            }
            self.persistent.clear_upload_declarations();
            self.upload_record_epochs = self.upload_record_epochs + 1;
        }
        FrameStart {
            housekeeping,
            make_linear_sampler: self.persistent.linear_clamp_sampler.is_none(),
            make_nearest_sampler: self.persistent.nearest_clamp_sampler.is_none(),
            topology,
            upload_key,
            upload_needs_record,
            stats,
        }
    }

    /// The decision on the worker, once the resources of the frame have been acquired: whether the
    /// retained worker is stale, and has to be recorded anew. A stale worker takes its grants
    /// with it.
    pub fn resolve_worker(
        &mut self,
        start: &FrameStart,
        effects: &[LayerFilterEffect],
        out_image: Option<u64>,
        output_texture: Option<u64>,
    ) -> (stale: bool)
        requires
            old(self).can_count_frame(),
        ensures
            old(self).wf() && !stale ==> final(self).wf(),
            start.upload_needs_record ==> (final(self).persistent.cached_upload_key matches Some(key) && key.same_as(
                start.upload_key,
            )),
            !start.upload_needs_record ==> final(self).persistent.cached_upload_key
                == old(self).persistent.cached_upload_key,
            start.upload_needs_record ==> !upload_is_stale(final(self).persistent, start.upload_key),
            stale ==> final(self).persistent.cached_bump_grant is None && final(self).persistent.cached_present_tx is None,
            effects@.len() > 0 ==> stale,
            stale == worker_is_stale(
                old(self).persistent,
                start.topology,
                effects@,
                out_image,
                output_texture,
            ),
            *final(self) == (SchemeRenderer {
                persistent: PersistentState {
                    cached_upload_key: final(self).persistent.cached_upload_key,
                    cached_bump_grant: if stale {
                        None
                    } else {
                        old(self).persistent.cached_bump_grant
                    },
                    cached_present_tx: if stale {
                        None
                    } else {
                        old(self).persistent.cached_present_tx
                    },
                    scene_growth: SceneGrowthStats {
                        worker_rerecord_scene_bucket: if old(self).persistent.cached_worker_topology matches Some(t)
                            && t.scene_bucket != start.topology.scene_bucket {
                            (old(self).persistent.scene_growth.worker_rerecord_scene_bucket + 1) as u64
                        } else {
                            old(self).persistent.scene_growth.worker_rerecord_scene_bucket
                        },
                        ..old(self).persistent.scene_growth
                    },
                    ..old(self).persistent
                },
                ..*old(self)
            }),
    {
        if start.upload_needs_record {
            self.persistent.cached_upload_key = Some(start.upload_key.clone());
        }
        let stale: bool = worker_stale_reasons(
            &self.persistent,
            &start.topology,
            effects,
            out_image,
            output_texture,
        );
        if stale {
            let bucket_changed: bool = match &self.persistent.cached_worker_topology {
                Some(t) => t.scene_bucket != start.topology.scene_bucket,
                None => false,
            };
            if bucket_changed {
                note_worker_rerecord_scene_bucket(&mut self.persistent.scene_growth);
            }
            self.persistent.cached_bump_grant = None;
            self.persistent.cached_present_tx = None;
        }
        stale
    }

    /// The last decisions of a frame: what a new worker was recorded for is kept, the counters of a
    /// robust frame are queued for reading, the render targets are stamped with the time of the
    /// frame, and the frame is presented where it has a grant for that. A frame for a swapchain has
    /// one, whether its worker is new or retained.
    pub fn end_frame(
        &mut self,
        start: &FrameStart,
        record: Option<WorkerRecord>,
        effects: Vec<LayerFilterEffect>,
        output_texture: Option<u64>,
        swapchain_present: bool,
        robust: bool,
        submission: Submission,
        frame_timeline: u64,
    ) -> (end: FrameEnd)
        requires
            record matches Some(r) ==> (r.present is Some) == start.topology.swapchain_present,
            swapchain_present == start.topology.swapchain_present,
        ensures
            old(self).wf() || (old(self).estimates_sane() && record is Some) ==> final(self).wf(),
            swapchain_present && (record is Some || (old(self).wf() && old(self).recorded_for_swapchain()))
                ==> end.present is Some,
            record matches Some(r) ==> effects@.len() == 0 ==> !worker_is_stale(
                final(self).persistent,
                start.topology,
                effects@,
                r.resources.out_image,
                output_texture,
            ),
            end.present matches Some(p) ==> swapchain_present && p.1 == submission,
            !swapchain_present ==> end.present is None,
            robust && final(self).persistent.cached_bump_grant is Some ==> final(self).persistent.pending_bump_submission
                == Some(submission),
            !robust ==> final(self).persistent.pending_bump_submission == old(self).persistent.pending_bump_submission,
            final(self).persistent.cached_scheme_rt matches Some(targets) ==> targets.timeline == frame_timeline,
            end.stats == start.stats,
            end.present == (match final(self).persistent.cached_present_tx {
                Some(grant) if swapchain_present => Some((grant, submission)),
                _ => None,
            }),
            end.released_uniforms@ == (match record {
                Some(r) => crate::scheme_render::handles_from(
                    old(self).persistent.cached_filter_uniforms.slots@,
                    r.filter_passes as int,
                ),
                None => seq![],
            }),
            record matches Some(r) ==> {
                &&& final(self).persistent.cached_present_tx == r.present
                &&& final(self).persistent.cached_bump_grant == r.bump
                &&& final(self).persistent.cached_worker_topology == Some(start.topology)
                &&& final(self).persistent.cached_worker_filter_effects == effects
                &&& final(self).persistent.cached_worker_out_image == r.resources.out_image
                &&& final(self).persistent.cached_worker_output_texture == output_texture
                &&& final(self).persistent.cached_worker_resources == Some(r.resources)
                &&& final(self).persistent.cached_filter_uniforms.slots@ == (if r.filter_passes
                    < old(self).persistent.cached_filter_uniforms.slots@.len() {
                    old(self).persistent.cached_filter_uniforms.slots@.take(r.filter_passes as int)
                } else {
                    old(self).persistent.cached_filter_uniforms.slots@
                })
            },
            record is None ==> final(self).persistent.cached_filter_uniforms
                == old(self).persistent.cached_filter_uniforms,
            *final(self) == (SchemeRenderer {
                persistent: PersistentState {
                    cached_filter_uniforms: final(self).persistent.cached_filter_uniforms,
                    pending_bump_submission: if robust && final(self).persistent.cached_bump_grant is Some {
                        Some(submission)
                    } else {
                        old(self).persistent.pending_bump_submission
                    },
                    cached_scheme_rt: match old(self).persistent.cached_scheme_rt {
                        Some(targets) => Some(SchemeTargets { timeline: frame_timeline, ..targets }),
                        None => None,
                    },
                    ..(match record {
                        Some(r) => PersistentState {
                            cached_present_tx: r.present,
                            cached_bump_grant: r.bump,
                            cached_worker_topology: Some(start.topology),
                            cached_worker_filter_effects: effects,
                            cached_worker_out_image: r.resources.out_image,
                            cached_worker_output_texture: output_texture,
                            cached_worker_resources: Some(r.resources),
                            ..old(self).persistent
                        },
                        None => old(self).persistent,
                    })
                },
                ..*old(self)
            }),
    {
        let mut released_uniforms: Vec<u64> = Vec::new();
        if let Some(r) = record {
            self.persistent.cached_present_tx = r.present;
            self.persistent.cached_bump_grant = r.bump;
            self.persistent.cached_worker_topology = Some(start.topology);
            self.persistent.cached_worker_filter_effects = effects;
            self.persistent.cached_worker_out_image = r.resources.out_image;
            self.persistent.cached_worker_output_texture = output_texture;
            self.persistent.cached_worker_resources = Some(r.resources);
            released_uniforms = self.persistent.trim_filter_uniform_cache(r.filter_passes);
        }
        let present: Option<(u64, Submission)> = match self.persistent.cached_present_tx {
            Some(grant) => if swapchain_present {
                Some((grant, submission))
            } else {
                None
            },
            None => None,
        };
        if robust && self.persistent.cached_bump_grant.is_some() {
            self.persistent.queue_bump_submission(submission);
        }
        if let Some(targets) = self.persistent.cached_scheme_rt {
            self.persistent.cached_scheme_rt = Some(SchemeTargets { timeline: frame_timeline, ..targets });
        }
        FrameEnd { stats: start.stats, present, released_uniforms }
    }

    /// Puts the resources of a frame into the caches for the next one.
    pub fn schedule_pipeline_cleanup(&mut self, pipeline: PipelineResources)
        requires
            old(self).persistent.cached_pipeline is None,
        ensures
            forall|step: PipelineStep| #[trigger]
                pipeline_step_for(final(self).persistent.cached_pipeline, pipeline.buffer_sizes, step) ==> step.stable
                    == BufferStep::Reuse(pipeline.stable) && step.scratch == BufferStep::Reuse(pipeline.scratch)
                    && step.released is None,
            bump_step(final(self).persistent.cached_bump, pipeline.bump.size) == BumpStep::Reuse(pipeline.bump),
            final(self).persistent.cached_scene == Some(pipeline.scene),
            final(self).persistent.cached_config_uniform matches Some(c) && c.0 == pipeline.config_uniform_value && c.1
                == pipeline.config,
            pipeline.indirect is Some ==> final(self).persistent.cached_scheme_indirect == pipeline.indirect,
            final(self).persistent.cached_scheme_rt matches Some(targets) && targets.out == pipeline.out_image
                && targets.layers == pipeline.filter_layers && targets.timeline == 0,
            *final(self) == (SchemeRenderer {
                persistent: PersistentState {
                    cached_scene: Some(pipeline.scene),
                    cached_config_uniform: Some((pipeline.config_uniform_value, pipeline.config)),
                    cached_scheme_indirect: match pipeline.indirect {
                        Some(indirect) => Some(indirect),
                        None => old(self).persistent.cached_scheme_indirect,
                    },
                    cached_bump: Some(pipeline.bump),
                    cached_pipeline: Some(
                        CachedPipeline {
                            stable: pipeline.stable,
                            scratch: pipeline.scratch,
                            buffer_sizes: pipeline.buffer_sizes,
                        },
                    ),
                    cached_scheme_rt: Some(
                        SchemeTargets { out: pipeline.out_image, layers: pipeline.filter_layers, timeline: 0 },
                    ),
                    ..old(self).persistent
                },
                ..*old(self)
            }),
    {
        self.persistent.cached_scene = Some(pipeline.scene);
        self.persistent.cached_config_uniform = Some((pipeline.config_uniform_value, pipeline.config));
        if let Some(indirect) = pipeline.indirect {
            self.persistent.cached_scheme_indirect = Some(indirect);
        }
        self.persistent.cached_bump = Some(pipeline.bump);
        self.persistent.cached_pipeline = Some(
            CachedPipeline {
                stable: pipeline.stable,
                scratch: pipeline.scratch,
                buffer_sizes: pipeline.buffer_sizes,
            },
        );
        self.persistent.store_scheme_render_targets(
            SchemeTargets { out: pipeline.out_image, layers: pipeline.filter_layers, timeline: 0 },
        );
    }

    /// Decides whether a frame that was rendered for readback is rendered again: its allocations
    /// failed, and it has been tried no more than the limit. The render targets of a failed frame
    /// are dropped.
    pub fn retry_readback(&mut self, attempt: usize) -> (again: bool)
        ensures
            ({
                let failed = old(self).persistent.last_drained_bump matches Some(bump) && bump.failed != 0;
                &&& again == (failed && attempt < MAX_BUMP_RETRIES)
                &&& *final(self) == (SchemeRenderer {
                    persistent: PersistentState {
                        cached_scheme_rt: if failed {
                            None
                        } else {
                            old(self).persistent.cached_scheme_rt
                        },
                        ..old(self).persistent
                    },
                    ..*old(self)
                })
            }),
            attempt >= 2 ==> !again,
            again ==> final(self).persistent.cached_scheme_rt is None,
            attempt < 2 ==> (again <==> (old(self).persistent.last_drained_bump matches Some(bump) && bump.failed != 0)),
    {
        let failed: bool = match self.persistent.last_drained_bump() {
            Some(bump) => bump.failed != 0,
            None => false,
        };
        if failed {
            self.persistent.cached_scheme_rt = None;
        }
        failed && attempt < MAX_BUMP_RETRIES
    }
}

/// Why a frame cannot be read back.
pub open spec fn no_out_image() -> &'static str {
    "render_to_buffer: missing scheme out_image"
}

/// Why a frame cannot be presented.
pub open spec fn no_present_grant() -> &'static str {
    "missing present grant for swapchain submit"
}

impl SchemeRenderer {
    /// The texture that a frame is read back from: the output image of the render targets.
    pub fn readback_target(&self) -> (r: Result<TargetTexture, Error>)
        ensures
            match r {
                Ok(texture) => self.persistent.cached_scheme_rt matches Some(targets) && targets.out == Some(texture),
                Err(e) => {
                    &&& self.persistent.cached_scheme_rt matches Some(targets) ==> targets.out is None
                    &&& e matches Error::Shader(text) && text@ == no_out_image()@
                },
            },
    {
        match self.persistent.cached_scheme_rt {
            Some(SchemeTargets { out: Some(texture), .. }) => Ok(texture),
            _ => Err(Error::Shader(String::from_str("render_to_buffer: missing scheme out_image"))),
        }
    }

    /// The last step of a readback: the pixels without the padding of the rows. The host buffer is
    /// kept for the next one.
    pub fn render_to_buffer(&mut self, padded: &[u8], layout: &CopyLayout, host_buf: u64) -> (pixels: Vec<u8>)
        requires
            layout.wf(),
            layout.logical_bytes <= usize::MAX,
            padded@.len() == layout.staging_bytes,
        ensures
            pixels@.len() == layout.logical_bytes,
            forall|y: int, x: int|
                #![trigger pixels@[y * layout.tight_row_bytes + x]]
                0 <= y < layout.height && 0 <= x < layout.tight_row_bytes ==> pixels@[y * layout.tight_row_bytes + x]
                    == padded@[layout.footprint_offset + y * layout.row_pitch + x],
            *final(self) == (SchemeRenderer {
                persistent: PersistentState {
                    readback_host_buf: Some(SizedBuffer { size: layout.staging_bytes, handle: host_buf }),
                    ..old(self).persistent
                },
                ..*old(self)
            }),
    {
        let pixels: Vec<u8> = unpad_rows(padded, layout);
        self.persistent.store_readback_host_buf(host_buf, layout.staging_bytes);
        pixels
    }
}

impl FrameEnd {
    /// The grant by which a frame that was submitted to a swapchain is presented.
    pub fn submit_to_swapchain(self) -> (r: Result<(FrameStats, (u64, Submission)), Error>)
        ensures
            match r {
                Ok((stats, present)) => self.present == Some(present) && stats == self.stats,
                Err(e) => self.present is None && (e matches Error::Shader(text) && text@ == no_present_grant()@),
            },
    {
        match self.present {
            Some(present) => Ok((self.stats, present)),
            None => Err(Error::Shader(String::from_str("missing present grant for swapchain submit"))),
        }
    }
}

/// What the device tells about frames in flight.
#[derive(Clone, Copy, Debug, PartialEq, Eq, Structural)]
pub enum Signal {
    BoundaryCrossed { epoch: u64 },
    Oversubscribed,
    SwapchainReturned { image_index: u32 },
    SwapchainAcquired,
}

/// A step by which resources of completed frames are reclaimed.
#[derive(Clone, Copy, Debug, PartialEq, Eq, Structural)]
pub enum ReclaimStep {
    /// Buffers that were handed back go to the pool.
    DrainReturns,
    NotePresented(u64),
    /// Wait for the oldest work in flight, if there is any. Where that fails, no further signal is
    /// looked at.
    WaitOldest,
    FlushDeletions,
    ReturnSlot(u32),
}

/// The steps that a signal asks for.
pub open spec fn steps_for(signal: Signal) -> Seq<ReclaimStep> {
    match signal {
        Signal::BoundaryCrossed { epoch } => seq![ReclaimStep::DrainReturns, ReclaimStep::NotePresented(epoch)],
        Signal::Oversubscribed => seq![
            ReclaimStep::WaitOldest,
            ReclaimStep::FlushDeletions,
            ReclaimStep::DrainReturns,
        ],
        Signal::SwapchainReturned { image_index } => seq![ReclaimStep::ReturnSlot(image_index)],
        Signal::SwapchainAcquired => seq![],
    }
}

/// Lists the steps that a signal asks for.
pub fn poll_and_reclaim(signal: Signal) -> (steps: Vec<ReclaimStep>)
    ensures
        steps@ == steps_for(signal),
{
    let mut steps: Vec<ReclaimStep> = Vec::new();
    match signal {
        Signal::BoundaryCrossed { epoch } => {
            steps.push(ReclaimStep::DrainReturns);
            steps.push(ReclaimStep::NotePresented(epoch));
        },
        Signal::Oversubscribed => {
            steps.push(ReclaimStep::WaitOldest);
            steps.push(ReclaimStep::FlushDeletions);
            steps.push(ReclaimStep::DrainReturns);
        },
        Signal::SwapchainReturned { image_index } => {
            steps.push(ReclaimStep::ReturnSlot(image_index));
        },
        Signal::SwapchainAcquired => {},
    }
    assert(steps@ =~= steps_for(signal));
    steps
}

/// The upload targets of a frame depend on its resources alone: two frames with the same resources
/// have the same upload key, however they differ in resolution, anti-aliasing or configuration.
pub proof fn upload_key_depends_on_resources(
    a: PreparedFrame,
    b: PreparedFrame,
    dims_a: ResourceDims,
    dims_b: ResourceDims,
    key_a: UploadKey,
    key_b: UploadKey,
)
    requires
        dims_of_frame(a, dims_a),
        dims_of_frame(b, dims_b),
        key_of(dims_a, key_a),
        key_of(dims_b, key_b),
        a.packed@.len() == b.packed@.len(),
        a.ramps_width == b.ramps_width,
        a.ramps_height == b.ramps_height,
        a.images_width == b.images_width,
        a.images_height == b.images_height,
        a.image_entries@ == b.image_entries@,
        mask_dims(a) == mask_dims(b),
    ensures
        key_a.same_as(key_b),
{
    crate::worker_retention::buckets_are_monotone(
        a.packed@.len() as int,
        b.packed@.len() as int,
        dims_a.scene_bucket as int,
        dims_b.scene_bucket as int,
    );
    crate::worker_retention::buckets_are_monotone(
        b.packed@.len() as int,
        a.packed@.len() as int,
        dims_b.scene_bucket as int,
        dims_a.scene_bucket as int,
    );
    crate::worker_retention::sorted_regions_are_unique(dims_a.image_regions@, dims_b.image_regions@);
}

/// A dispatch over an empty grid does nothing, and is left out.
pub open spec fn empty_grid(grid: (u32, u32, u32)) -> bool {
    grid.0 == 0 || grid.1 == 0 || grid.2 == 0
}

/// How a dispatch accesses each of its bindings: as the shader declares, and for reading and writing
/// where it declares nothing. The presented image says itself how it is accessed.
pub open spec fn access_list(bindings: Seq<Binding>, bind_types: Seq<BindType>) -> Seq<NodeAccess> {
    Seq::new(
        bindings.len(),
        |i: int|
            match bindings[i] {
                Binding::Present(access) => access,
                _ => if i < bind_types.len() {
                    bind_types[i].access()
                } else {
                    NodeAccess::ReadWrite
                },
            },
    )
}

/// Lists how a dispatch accesses its bindings; a dispatch over an empty grid is left out.
pub fn dispatch_accesses(grid: (u32, u32, u32), bindings: &[Binding], bind_types: &[BindType]) -> (list: Option<
    Vec<NodeAccess>,
>)
    ensures
        match list {
            Some(v) => !empty_grid(grid) && v@ == access_list(bindings@, bind_types@),
            None => empty_grid(grid),
        },
{
    if grid.0 == 0 || grid.1 == 0 || grid.2 == 0 {
        return None;
    }
    Some(binding_accesses(bindings, bind_types))
}

/// Lists how a dispatch accesses its bindings.
pub fn binding_accesses(bindings: &[Binding], bind_types: &[BindType]) -> (list: Vec<NodeAccess>)
    ensures
        list@ == access_list(bindings@, bind_types@),
{
    let mut list: Vec<NodeAccess> = Vec::new();
    let mut i: usize = 0;
    while i < bindings.len()
        invariant
            i <= bindings.len(),
            list@ == access_list(bindings@, bind_types@).take(i as int),
        decreases bindings.len() - i,
    {
        let access: NodeAccess = match bindings[i] {
            Binding::Present(access) => access,
            _ => if i < bind_types.len() {
                bind_type_to_node_access(bind_types[i])
            } else {
                NodeAccess::ReadWrite
            },
        };
        list.push(access);
        assert(list@ =~= access_list(bindings@, bind_types@).take(i as int + 1));
        i = i + 1;
    }
    assert(access_list(bindings@, bind_types@).take(i as int) =~= access_list(bindings@, bind_types@));
    list
}

} // verus!
