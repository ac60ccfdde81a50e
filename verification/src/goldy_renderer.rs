//! State of the renderer that survives across frames, and the decisions on what of it a frame can
//! use again.
//!
//! GPU objects are named by handles; two handles are equal where they name the same object.

use crate::config::{BumpAllocators, ConfigUniform, RenderConfig, WorkgroupCountsGpu};
use crate::coverage_mask::CoverageMask;
use crate::filter::LayerFilterEffect;
use crate::image::ImageData;
use crate::layout::Layout;
use crate::pixels::words_of;
use crate::resource_proxy::TextureFormat;
use crate::scheme_gpu_resources::CachedPipeline;
use crate::scheme_render::{handles_from, FilterUniformCache, MaskTables};
use crate::text::{lowered, reads_as};
use crate::worker_retention::{Region, UploadKey, WorkerResourceHandles, WorkerTopology};
use crate::RenderParams;
use vstd::prelude::*;

verus! {

/// The renderer works on one frame at a time.
pub const FRAME_PIPELINE_DEPTH: usize = 1;

/// How often a frame is rendered again because its buffers were too small.
pub const MAX_BUMP_RETRIES: usize = 2;

/// Per-frame render statistics.
///
/// Non-zero `bump_retries` means the GPU bump allocator overflowed at least once
/// and the frame was re-rendered with larger buffers.
#[derive(Debug, Default, Clone, Copy, PartialEq, Eq, Structural)]
pub struct FrameStats {
    /// Number of times the bump allocator overflowed and the frame was retried.
    /// Zero on a clean frame.
    pub bump_retries: u32,
}

/// Snapshot of frame-scheduling state, useful for tests and diagnostics.
#[derive(Debug, Clone, Copy, PartialEq, Eq, Structural)]
pub struct AllocatorStats {
    /// Number of frames waiting in the frame ring (always at most 1).
    pub cleanup_ring_depth: usize,
}

/// Cumulative scene-capacity growth counters.
#[derive(Debug, Default, Clone, Copy, PartialEq, Eq, Structural)]
pub struct SceneGrowthStats {
    /// Frames processed since renderer creation.
    pub frames: u64,
    /// Scene buffer reallocated because live bytes crossed into a higher bucket.
    pub scene_bucket_crossings: u64,
    /// Worker scheme replaced after the scene bucket changed.
    pub worker_rerecord_scene_bucket: u64,
    /// Upload scheme replaced after the scene bucket changed.
    pub upload_rerecord_scene_bucket: u64,
    /// Current scene byte bucket (power-of-two capacity).
    pub current_scene_bucket: u64,
    /// Maximum scene byte bucket observed.
    pub peak_scene_bucket: u64,
    /// Maximum packed scene bytes observed (live extent, not bucket).
    pub peak_live_scene_bytes: u64,
}

/// Snapshot of retained-pool accounting, useful for tests and diagnostics.
#[derive(Debug, Clone, Copy, PartialEq, Eq, Structural)]
pub struct ResourcePoolStats {
    /// Committed buffer bytes held in the retained pool.
    pub retained_pool_buffer_bytes: u64,
    /// Committed texture bytes held in the retained pool (atlases, render targets, filter layers).
    pub retained_pool_texture_bytes: u64,
}

/// Upper bound applied to observed bump counters before they size any buffer. Legitimate scenes
/// need far less than this; a larger value comes from a stale or corrupt read.
pub const BUMP_SANITY_CAP: u32 = 16777216;

/// A counter that is not implausibly large.
pub open spec fn sane(count: u32) -> u32 {
    if count > BUMP_SANITY_CAP {
        0
    } else {
        count
    }
}

/// The counters with the implausible ones set to zero.
pub open spec fn sanitized(bump: BumpAllocators) -> BumpAllocators {
    BumpAllocators {
        failed: bump.failed,
        binning: sane(bump.binning),
        ptcl: sane(bump.ptcl),
        tile: sane(bump.tile),
        seg_counts: sane(bump.seg_counts),
        segments: sane(bump.segments),
        blend: sane(bump.blend),
        lines: sane(bump.lines),
        active_tiles: sane(bump.active_tiles),
    }
}

/// No counter is above the cap.
pub open spec fn within_cap(bump: BumpAllocators) -> bool {
    &&& bump.binning <= BUMP_SANITY_CAP
    &&& bump.ptcl <= BUMP_SANITY_CAP
    &&& bump.tile <= BUMP_SANITY_CAP
    &&& bump.seg_counts <= BUMP_SANITY_CAP
    &&& bump.segments <= BUMP_SANITY_CAP
    &&& bump.blend <= BUMP_SANITY_CAP
    &&& bump.lines <= BUMP_SANITY_CAP
    &&& bump.active_tiles <= BUMP_SANITY_CAP
}

fn clamp(count: u32) -> (r: u32)
    ensures
        r == sane(count),
{
    if count > BUMP_SANITY_CAP {
        0
    } else {
        count
    }
}

/// Clamp any counter that looks implausibly large back to the default.
///
/// Buffer growth ignores counters that are below the current buffer size, so substituting 0
/// for an absurd value is equivalent to "stay at default" without risking an allocation
/// blow-up.
pub fn sanitize_bump(bump: &BumpAllocators) -> (b: BumpAllocators)
    ensures
        b == sanitized(*bump),
        within_cap(b),
{
    BumpAllocators {
        failed: bump.failed,
        binning: clamp(bump.binning),
        ptcl: clamp(bump.ptcl),
        tile: clamp(bump.tile),
        seg_counts: clamp(bump.seg_counts),
        segments: clamp(bump.segments),
        blend: clamp(bump.blend),
        lines: clamp(bump.lines),
        active_tiles: clamp(bump.active_tiles),
    }
}

/// Counters within the cap never ask for more than can be counted, whatever the scene.
pub proof fn sane_counters_can_grow(config: RenderConfig, layout: Layout, bump: BumpAllocators)
    requires
        layout.bin_data_start <= crate::config::BIN_DATA_LEN,
        crate::config::BufferSizes::sized_for(layout, config.workgroup_counts, config.buffer_sizes),
        within_cap(bump),
    ensures
        config.buffer_sizes.can_grow(bump),
        layout.bin_data_start <= config.buffer_sizes.info@,
{
}

/// Override the robustness of a frame by the value of an environment variable, for benchmarking.
///
/// `0`, `false`, `no` and `off` disable bump readback; any other value, such as `1`, `true`, `yes`
/// or `on`, forces it on. Without a value the caller's choice stands.
pub fn env_robust_override(value: Option<&str>) -> (robust: Option<bool>)
    ensures
        robust == (match value {
            None => None,
            Some(v) => Some(
                !(lowered(v@) == "0"@ || lowered(v@) == "false"@ || lowered(v@) == "no"@ || lowered(v@) == "off"@),
            ),
        }),
        robust is None <==> value is None,
        value matches Some(v) ==> (lowered(v@) == seq!['0'] ==> robust == Some(false)),
        value matches Some(v) ==> (lowered(v@) == seq!['n', 'o'] ==> robust == Some(false)),
        value matches Some(v) ==> (lowered(v@) == seq!['o', 'f', 'f'] ==> robust == Some(false)),
        value matches Some(v) ==> (lowered(v@) == seq!['f', 'a', 'l', 's', 'e'] ==> robust == Some(false)),
        value matches Some(v) ==> (v@.len() == 0 || v@.len() == 4 || v@.len() > 5 ==> robust == Some(true)),
{
    proof {
        reveal_strlit("0");
        reveal_strlit("false");
        reveal_strlit("no");
        reveal_strlit("off");
        assert("0"@ =~= seq!['0']);
        assert("no"@ =~= seq!['n', 'o']);
        assert("off"@ =~= seq!['o', 'f', 'f']);
        assert("false"@ =~= seq!['f', 'a', 'l', 's', 'e']);
    }
    match value {
        None => None,
        Some(v) => Some(!(reads_as(v, "0") || reads_as(v, "false") || reads_as(v, "no") || reads_as(v, "off"))),
    }
}

/// CPU-resolved scene data ready for GPU submission.
///
/// Owns all data extracted from the scene encoding so it can be stored across
/// event loop iterations.
pub struct PreparedFrame {
    pub packed: Vec<u8>,
    pub layout: Layout,
    pub ramps_data: Vec<u32>,
    pub ramps_width: u32,
    pub ramps_height: u32,
    pub images_width: u32,
    pub images_height: u32,
    /// The images of the atlas with their places in it.
    pub image_entries: Vec<(ImageData, u32, u32)>,
    pub config: RenderConfig,
    pub params: RenderParams,
    pub coverage_mask: Option<CoverageMask>,
    pub layer_filter_effects: Vec<LayerFilterEffect>,
}

impl PreparedFrame {
    /// Render width this frame was prepared for.
    pub fn width(&self) -> (w: u32)
        ensures
            w == self.params.width,
    {
        self.params.width
    }

    /// Render height this frame was prepared for.
    pub fn height(&self) -> (h: u32)
        ensures
            h == self.params.height,
    {
        self.params.height
    }
}

/// A texture that a frame is rendered to.
#[derive(Clone, Copy, Debug, PartialEq, Eq, Structural)]
pub struct TargetTexture {
    pub handle: u64,
    pub width: u32,
    pub height: u32,
    pub format: TextureFormat,
}

/// The render targets of a frame: an output image, unless the frame is written directly to the image
/// that is presented, and the textures of the filter layers.
#[derive(Clone, Copy, Debug)]
pub struct SchemeTargets {
    pub out: Option<TargetTexture>,
    pub layers: [TargetTexture; 4],
    /// Time of the frame that used them last.
    pub timeline: u64,
}

/// Work that was handed to the GPU, with the time at which it is done.
#[derive(Clone, Copy, Debug, PartialEq, Eq, Structural)]
pub struct Submission {
    pub handle: u64,
    pub timeline: u64,
}

/// What happens to render targets that do not fit any more.
#[derive(Clone, Copy, Debug, PartialEq, Eq)]
pub struct Reclaim {
    /// Wait for this time first.
    pub wait: Option<u64>,
    /// Drop the textures instead of pooling them, so that no heap stays pinned.
    pub dropped: bool,
}

/// A texture atlas that is kept across frames.
#[derive(Clone, Copy, Debug, PartialEq, Eq, Structural)]
pub enum AtlasCache {
    Gradient,
    Image,
    Mask,
}

/// An atlas texture with its size.
#[derive(Clone, Copy, Debug, PartialEq, Eq, Structural)]
pub struct AtlasTexture {
    pub width: u32,
    pub height: u32,
    pub handle: u64,
}

/// A declaration of a texture upload: size, capacity in bytes and handle.
#[derive(Clone, Copy, Debug, PartialEq, Eq, Structural)]
pub struct TextureUpload {
    pub width: u32,
    pub height: u32,
    pub capacity: u64,
    pub handle: u64,
}

/// A buffer with its size in bytes.
#[derive(Clone, Copy, Debug, PartialEq, Eq, Structural)]
pub struct SizedBuffer {
    pub size: u64,
    pub handle: u64,
}

/// GPU resources that live for the lifetime of the renderer and are reused
/// across frames.
pub struct PersistentState {
    /// Bump allocator counters from the most recently drained frame.
    /// `None` until the first GPU readback completes.
    pub last_drained_bump: Option<BumpAllocators>,
    pub linear_clamp_sampler: Option<u64>,
    pub nearest_clamp_sampler: Option<u64>,
    /// Optional persistent output image and filter layers.
    pub cached_scheme_rt: Option<SchemeTargets>,
    /// Pipeline buffers from the previous frame. Only one entry exists at a time.
    pub cached_pipeline: Option<CachedPipeline>,
    /// Static multisampling mask tables.
    pub mask_tables: MaskTables,
    /// Uniform buffer and the value last uploaded to it.
    pub cached_config_uniform: Option<(ConfigUniform, u64)>,
    /// Filter uniform buffers, by filter dispatch order.
    pub cached_filter_uniforms: FilterUniformCache,
    /// Composite per-stage indirect buffer, keyed by the counts that it was made with.
    pub cached_scheme_indirect: Option<(WorkgroupCountsGpu, u64)>,
    /// Scene buffer by its bucket capacity.
    pub cached_scene: Option<SizedBuffer>,
    /// Upload declaration of the scene by its bucket capacity.
    pub cached_scene_upload: Option<SizedBuffer>,
    pub cached_config_upload: Option<u64>,
    /// Bump buffer by its size.
    pub cached_bump: Option<SizedBuffer>,
    /// Recorded once on the worker when bump readback is enabled.
    pub cached_bump_grant: Option<u64>,
    pub cached_gradient: Option<AtlasTexture>,
    pub cached_image_atlas: Option<AtlasTexture>,
    pub cached_mask_atlas: Option<AtlasTexture>,
    /// Recorded once on the worker when surface presentation is enabled.
    pub cached_present_tx: Option<u64>,
    /// Output image the worker was recorded against.
    pub cached_worker_out_image: Option<u64>,
    /// Output texture the worker was recorded against.
    pub cached_worker_output_texture: Option<u64>,
    /// All worker-bound handles from the last record.
    pub cached_worker_resources: Option<WorkerResourceHandles>,
    /// Last worker topology the retained scheme was recorded against.
    pub cached_worker_topology: Option<WorkerTopology>,
    /// Filter effects from the last worker record.
    pub cached_worker_filter_effects: Vec<LayerFilterEffect>,
    /// Worker submission from the prior frame, whose counters have not been read yet.
    pub pending_bump_submission: Option<Submission>,
    /// Upload key the upload scheme was recorded against.
    pub cached_upload_key: Option<UploadKey>,
    pub cached_gradient_upload: Option<TextureUpload>,
    pub cached_mask_upload: Option<TextureUpload>,
    pub cached_image_region_uploads: Vec<(Region, u64)>,
    /// Persistent host buffer for pixel readback.
    pub readback_host_buf: Option<SizedBuffer>,
    /// Texture heaps stay pinned if render targets of another size are pooled across a resize.
    /// When set, they are dropped instead of pooled.
    pub metal_heap_sensitive: bool,
    /// Scene capacity growth instrumentation.
    pub scene_growth: SceneGrowthStats,
}

/// The targets fit a frame. `direct_present` calls for no output image, since the frame is written
/// to the presented image; otherwise the image has the size and the format of the frame. The filter
/// layers have the size of the frame.
pub open spec fn targets_fit(
    out: Option<TargetTexture>,
    layers: [TargetTexture; 4],
    width: u32,
    height: u32,
    out_format: TextureFormat,
    direct_present: bool,
) -> bool {
    &&& layers[0].width == width
    &&& layers[0].height == height
    &&& match out {
        None => direct_present,
        Some(tex) => !direct_present && tex.width == width && tex.height == height && tex.format == out_format,
    }
}

/// Shared compatibility predicate for render target reuse and early resize purge.
pub fn scheme_render_targets_compatible(
    out: &Option<TargetTexture>,
    layers: &[TargetTexture; 4],
    width: u32,
    height: u32,
    out_format: TextureFormat,
    direct_present: bool,
) -> (b: bool)
    ensures
        b == targets_fit(*out, *layers, width, height, out_format, direct_present),
{
    let layers_match: bool = layers[0].width == width && layers[0].height == height;
    let out_matches: bool = match out {
        None => direct_present,
        Some(tex) => !direct_present && tex.width == width && tex.height == height && tex.format == out_format,
    };
    layers_match && out_matches
}

/// How render targets are retired: where heaps are sensitive, they are dropped once the GPU is done
/// with them; elsewhere they are pooled.
pub open spec fn reclaim_of(heap_sensitive: bool, timeline: u64, gpu_progress: u64) -> Reclaim {
    if heap_sensitive {
        Reclaim {
            wait: if timeline != 0 && gpu_progress < timeline {
                Some(timeline)
            } else {
                None
            },
            dropped: true,
        }
    } else {
        Reclaim { wait: None, dropped: false }
    }
}

/// A request for render targets.
#[derive(Clone, Copy, Debug)]
pub enum TargetStep {
    /// Use the cached targets again.
    Reuse(SchemeTargets),
    /// Make new targets, after retiring those that do not fit.
    Acquire { retired: Option<(SchemeTargets, Reclaim)> },
}

/// What a resize does to the cached render targets.
#[derive(Clone, Copy, Debug)]
pub struct Purge {
    pub targets: SchemeTargets,
    pub reclaim: Reclaim,
    /// Also empty the pool of transient textures.
    pub clear_transients: bool,
}

/// Where the host buffer of a readback comes from.
#[derive(Clone, Copy, Debug, PartialEq, Eq)]
pub enum HostBufferStep {
    Reuse(u64),
    /// Make a buffer, after releasing the one that has another size.
    Acquire { released: Option<u64> },
}

/// What can be read of the counters of the last frame.
#[derive(Clone, Copy, Debug, PartialEq, Eq, Structural)]
pub enum BumpDrain {
    /// Nothing yet.
    Wait,
    /// The submission is done: its counters can be read through the grant.
    Read { grant: u64, submission: Submission },
}

impl PersistentState {
    /// A state with nothing cached.
    pub fn new(metal_heap_sensitive: bool) -> (s: Self)
        ensures
            s.last_drained_bump is None,
            s.linear_clamp_sampler is None,
            s.nearest_clamp_sampler is None,
            s.cached_scheme_rt is None,
            s.cached_pipeline is None,
            s.mask_tables == (MaskTables { msaa8: false, msaa16: false }),
            s.cached_config_uniform is None,
            s.cached_filter_uniforms.slots@.len() == 0,
            s.cached_filter_uniforms.next == 0,
            s.cached_scheme_indirect is None,
            s.cached_scene is None,
            s.cached_scene_upload is None,
            s.cached_config_upload is None,
            s.cached_bump is None,
            s.cached_bump_grant is None,
            s.cached_gradient is None,
            s.cached_image_atlas is None,
            s.cached_mask_atlas is None,
            s.cached_present_tx is None,
            s.cached_worker_out_image is None,
            s.cached_worker_output_texture is None,
            s.cached_worker_resources is None,
            s.cached_worker_topology is None,
            s.cached_worker_filter_effects@.len() == 0,
            s.pending_bump_submission is None,
            s.cached_upload_key is None,
            s.cached_gradient_upload is None,
            s.cached_mask_upload is None,
            s.cached_image_region_uploads@.len() == 0,
            s.readback_host_buf is None,
            s.metal_heap_sensitive == metal_heap_sensitive,
            s.scene_growth == (SceneGrowthStats {
                frames: 0,
                scene_bucket_crossings: 0,
                worker_rerecord_scene_bucket: 0,
                upload_rerecord_scene_bucket: 0,
                current_scene_bucket: 0,
                peak_scene_bucket: 0,
                peak_live_scene_bytes: 0,
            }),
    {
        PersistentState {
            last_drained_bump: None,
            linear_clamp_sampler: None,
            nearest_clamp_sampler: None,
            cached_scheme_rt: None,
            cached_pipeline: None,
            mask_tables: MaskTables { msaa8: false, msaa16: false },
            cached_config_uniform: None,
            cached_filter_uniforms: FilterUniformCache { slots: Vec::new(), next: 0 },
            cached_scheme_indirect: None,
            cached_scene: None,
            cached_scene_upload: None,
            cached_config_upload: None,
            cached_bump: None,
            cached_bump_grant: None,
            cached_gradient: None,
            cached_image_atlas: None,
            cached_mask_atlas: None,
            cached_present_tx: None,
            cached_worker_out_image: None,
            cached_worker_output_texture: None,
            cached_worker_resources: None,
            cached_worker_topology: None,
            cached_worker_filter_effects: Vec::new(),
            pending_bump_submission: None,
            cached_upload_key: None,
            cached_gradient_upload: None,
            cached_mask_upload: None,
            cached_image_region_uploads: Vec::new(),
            readback_host_buf: None,
            metal_heap_sensitive,
            scene_growth: SceneGrowthStats {
                frames: 0,
                scene_bucket_crossings: 0,
                worker_rerecord_scene_bucket: 0,
                upload_rerecord_scene_bucket: 0,
                current_scene_bucket: 0,
                peak_scene_bucket: 0,
                peak_live_scene_bytes: 0,
            },
        }
    }

    /// Drop logical upload declarations that are tied to a scheme instance.
    ///
    /// Call whenever the upload scheme (or fused worker scheme) is replaced so
    /// stale declarations cannot be reused against a new one.
    pub fn clear_upload_declarations(&mut self)
        ensures
            final(self).cached_image_region_uploads@.len() == 0,
            *final(self) == (PersistentState {
                cached_scene_upload: None,
                cached_config_upload: None,
                cached_gradient_upload: None,
                cached_mask_upload: None,
                cached_image_region_uploads: final(self).cached_image_region_uploads,
                ..*old(self)
            }),
    {
        self.cached_scene_upload = None;
        self.cached_config_upload = None;
        self.cached_gradient_upload = None;
        self.cached_mask_upload = None;
        self.cached_image_region_uploads = Vec::new();
    }

    /// Forget the filter uniform buffers beyond `keep`, and return their handles for release.
    ///
    /// Call after a worker re-record so a shorter filter chain does not pin
    /// leftover buffers from a previous, longer scene.
    pub fn trim_filter_uniform_cache(&mut self, keep: usize) -> (released: Vec<u64>)
        ensures
            released@ == handles_from(old(self).cached_filter_uniforms.slots@, keep as int),
            final(self).cached_filter_uniforms.slots@ == (if keep < old(self).cached_filter_uniforms.slots@.len() {
                old(self).cached_filter_uniforms.slots@.take(keep as int)
            } else {
                old(self).cached_filter_uniforms.slots@
            }),
            final(self).cached_filter_uniforms.next == keep,
            *final(self) == (PersistentState {
                cached_filter_uniforms: final(self).cached_filter_uniforms,
                ..*old(self)
            }),
    {
        self.cached_filter_uniforms.next = keep;
        self.cached_filter_uniforms.trim()
    }

    /// Takes the readback buffer, or tells that one of another size has to be made.
    pub fn acquire_readback_host_buf(&mut self, staging_bytes: u64) -> (step: HostBufferStep)
        ensures
            step == (match old(self).readback_host_buf {
                Some(buf) => if buf.size == staging_bytes {
                    HostBufferStep::Reuse(buf.handle)
                } else {
                    HostBufferStep::Acquire { released: Some(buf.handle) }
                },
                None => HostBufferStep::Acquire { released: None },
            }),
            match step {
                HostBufferStep::Reuse(handle) => old(self).readback_host_buf == Some(
                    SizedBuffer { size: staging_bytes, handle },
                ),
                HostBufferStep::Acquire { released } => match old(self).readback_host_buf {
                    Some(buf) => buf.size != staging_bytes && released == Some(buf.handle),
                    None => released is None,
                },
            },
            *final(self) == (PersistentState { readback_host_buf: None, ..*old(self) }),
    {
        match self.readback_host_buf.take() {
            Some(buf) => if buf.size == staging_bytes {
                HostBufferStep::Reuse(buf.handle)
            } else {
                HostBufferStep::Acquire { released: Some(buf.handle) }
            },
            None => HostBufferStep::Acquire { released: None },
        }
    }

    pub fn store_readback_host_buf(&mut self, handle: u64, staging_bytes: u64)
        ensures
            *final(self) == (PersistentState {
                readback_host_buf: Some(SizedBuffer { size: staging_bytes, handle }),
                ..*old(self)
            }),
    {
        self.readback_host_buf = Some(SizedBuffer { size: staging_bytes, handle });
    }

    /// What a frame gets for render targets.
    pub open spec fn target_step(
        self,
        width: u32,
        height: u32,
        out_format: TextureFormat,
        direct_present: bool,
        gpu_progress: u64,
    ) -> TargetStep {
        match self.cached_scheme_rt {
            None => TargetStep::Acquire { retired: None },
            Some(targets) => if targets_fit(
                targets.out,
                targets.layers,
                width,
                height,
                out_format,
                direct_present,
            ) {
                TargetStep::Reuse(targets)
            } else {
                TargetStep::Acquire {
                    retired: Some(
                        (targets, reclaim_of(self.metal_heap_sensitive, targets.timeline, gpu_progress)),
                    ),
                }
            },
        }
    }

    /// Takes the render targets out of the cache: those that fit are used again, others are
    /// retired.
    pub fn take_scheme_render_targets(
        &mut self,
        width: u32,
        height: u32,
        out_format: TextureFormat,
        direct_present: bool,
        gpu_progress: u64,
    ) -> (step: TargetStep)
        ensures
            step == old(self).target_step(width, height, out_format, direct_present, gpu_progress),
            *final(self) == (PersistentState { cached_scheme_rt: None, ..*old(self) }),
    {
        match self.cached_scheme_rt.take() {
            None => TargetStep::Acquire { retired: None },
            Some(targets) => {
                if scheme_render_targets_compatible(
                    &targets.out,
                    &targets.layers,
                    width,
                    height,
                    out_format,
                    direct_present,
                ) {
                    TargetStep::Reuse(targets)
                } else {
                    let reclaim: Reclaim = self.reclaim_scheme_render_targets(targets.timeline, gpu_progress);
                    TargetStep::Acquire { retired: Some((targets, reclaim)) }
                }
            },
        }
    }

    /// How render targets that no longer match are retired.
    pub fn reclaim_scheme_render_targets(&self, timeline: u64, gpu_progress: u64) -> (r: Reclaim)
        ensures
            r == reclaim_of(self.metal_heap_sensitive, timeline, gpu_progress),
    {
        if self.metal_heap_sensitive {
            let wait: Option<u64> = if timeline != 0 && gpu_progress < timeline {
                Some(timeline)
            } else {
                None
            };
            Reclaim { wait, dropped: true }
        } else {
            Reclaim { wait: None, dropped: false }
        }
    }

    pub fn store_scheme_render_targets(&mut self, targets: SchemeTargets)
        ensures
            *final(self) == (PersistentState { cached_scheme_rt: Some(targets), ..*old(self) }),
    {
        self.cached_scheme_rt = Some(targets);
    }

    /// The cached render targets do not fit a frame.
    pub open spec fn targets_mismatch(
        self,
        width: u32,
        height: u32,
        out_format: TextureFormat,
        direct_present: bool,
    ) -> bool {
        self.cached_scheme_rt matches Some(targets) && !targets_fit(
            targets.out,
            targets.layers,
            width,
            height,
            out_format,
            direct_present,
        )
    }

    /// Retire the cached render targets when they no longer match the requested dimensions or
    /// present mode.
    ///
    /// Where heaps are sensitive, the frame that used them is waited for while work is in flight,
    /// the textures are dropped, and the transient textures are cleared, so that obsolete sizes
    /// cannot pin heaps across a resize.
    pub fn purge_render_target_cache_if_mismatch(
        &mut self,
        width: u32,
        height: u32,
        out_format: TextureFormat,
        direct_present: bool,
        gpu_progress: u64,
        in_flight: bool,
    ) -> (purge: Option<Purge>)
        ensures
            purge is Some <==> old(self).targets_mismatch(width, height, out_format, direct_present),
            purge matches Some(p) ==> {
                &&& old(self).cached_scheme_rt == Some(p.targets)
                &&& p.reclaim == (Reclaim {
                    wait: if old(self).metal_heap_sensitive && in_flight && gpu_progress < p.targets.timeline {
                        Some(p.targets.timeline)
                    } else {
                        None
                    },
                    dropped: old(self).metal_heap_sensitive,
                })
                &&& p.clear_transients == old(self).metal_heap_sensitive
                &&& p.reclaim.dropped == old(self).metal_heap_sensitive
                &&& p.reclaim.wait matches Some(timeline) ==> in_flight && timeline == p.targets.timeline && gpu_progress
                    < timeline && p.reclaim.dropped
                &&& p.reclaim.dropped && in_flight && p.reclaim.wait is None ==> p.targets.timeline <= gpu_progress
                &&& *final(self) == (PersistentState { cached_scheme_rt: None, ..*old(self) })
            },
            purge is None ==> *final(self) == *old(self),
    {
        let mismatch: bool = match &self.cached_scheme_rt {
            Some(targets) => !scheme_render_targets_compatible(
                &targets.out,
                &targets.layers,
                width,
                height,
                out_format,
                direct_present,
            ),
            None => false,
        };
        if !mismatch {
            return None;
        }
        match self.cached_scheme_rt.take() {
            Some(targets) => {
                let wait: Option<u64> = if self.metal_heap_sensitive && in_flight && gpu_progress < targets.timeline {
                    Some(targets.timeline)
                } else {
                    None
                };
                Some(
                    Purge {
                        targets,
                        reclaim: Reclaim { wait, dropped: self.metal_heap_sensitive },
                        clear_transients: self.metal_heap_sensitive,
                    },
                )
            },
            None => None,
        }
    }

    pub fn last_drained_bump(&self) -> (b: Option<BumpAllocators>)
        ensures
            b == self.last_drained_bump,
    {
        self.last_drained_bump
    }

    pub fn take_last_drained_bump(&mut self) -> (b: Option<BumpAllocators>)
        ensures
            b == old(self).last_drained_bump,
            *final(self) == (PersistentState { last_drained_bump: None, ..*old(self) }),
    {
        self.last_drained_bump.take()
    }

    pub fn queue_bump_submission(&mut self, submission: Submission)
        ensures
            *final(self) == (PersistentState { pending_bump_submission: Some(submission), ..*old(self) }),
    {
        self.pending_bump_submission = Some(submission);
    }

    /// Decides whether the counters of the queued submission can be read. Without a grant, or while
    /// the GPU is not done, the submission stays queued.
    pub fn drain_ready_bump_readbacks(&mut self, gpu_progress: u64) -> (drain: BumpDrain)
        ensures
            drain == (match (old(self).pending_bump_submission, old(self).cached_bump_grant) {
                (Some(submission), Some(grant)) if submission.timeline <= gpu_progress => BumpDrain::Read {
                    grant,
                    submission,
                },
                _ => BumpDrain::Wait,
            }),
            drain matches BumpDrain::Read { grant, submission } ==> {
                &&& old(self).cached_bump_grant == Some(grant)
                &&& old(self).pending_bump_submission == Some(submission)
                &&& submission.timeline <= gpu_progress
                &&& final(self).pending_bump_submission is None
            },
            drain is Wait ==> *final(self) == *old(self) && (old(self).pending_bump_submission matches Some(submission)
                ==> old(self).cached_bump_grant is None || gpu_progress < submission.timeline),
            *final(self) == (PersistentState {
                pending_bump_submission: if drain is Read {
                    None
                } else {
                    old(self).pending_bump_submission
                },
                ..*old(self)
            }),
    {
        if let Some(submission) = self.pending_bump_submission {
            if let Some(grant) = self.cached_bump_grant {
                if submission.timeline <= gpu_progress {
                    self.pending_bump_submission = None;
                    return BumpDrain::Read { grant, submission };
                }
            }
        }
        BumpDrain::Wait
    }

    /// Claim cached pipeline buffers for this frame.
    pub fn take_cached_pipeline(&mut self) -> (c: Option<CachedPipeline>)
        ensures
            c == old(self).cached_pipeline,
            *final(self) == (PersistentState { cached_pipeline: None, ..*old(self) }),
    {
        self.cached_pipeline.take()
    }

    /// Keeps the counters that were read back from the GPU.
    ///
    /// Each counter is a word in the byte order of the machine.
    pub fn read_bump_bytes(&mut self, bytes: &[u8])
        requires
            bytes@.len() == 36,
        ensures
            final(self).last_drained_bump matches Some(bump) && is_bump_of(bump, bytes@),
            *final(self) == (PersistentState { last_drained_bump: final(self).last_drained_bump, ..*old(self) }),
    {
        self.last_drained_bump = Some(bump_from_bytes(bytes));
    }
}

/// The counters that were read back as bytes.
pub open spec fn is_bump_of(bump: BumpAllocators, bytes: Seq<u8>) -> bool {
    bump == bump_of(words_of(bytes, false)) || bump == bump_of(words_of(bytes, true))
}

/// Reads the counters out of a readback. Each counter is a word in the byte order of the machine.
pub fn bump_from_bytes(bytes: &[u8]) -> (bump: BumpAllocators)
    requires
        bytes@.len() == 36,
    ensures
        is_bump_of(bump, bytes@),
{
    let words: [u32; 9] = read_words(bytes);
    bump_from_words(words)
}

/// The counters in the order in which the GPU lays them out.
pub open spec fn bump_of(words: Seq<u32>) -> BumpAllocators {
    BumpAllocators {
        failed: words[0],
        binning: words[1],
        ptcl: words[2],
        tile: words[3],
        seg_counts: words[4],
        segments: words[5],
        blend: words[6],
        lines: words[7],
        active_tiles: words[8],
    }
}

/// Names the words of a readback.
pub fn bump_from_words(words: [u32; 9]) -> (bump: BumpAllocators)
    ensures
        bump == bump_of(words@),
{
    BumpAllocators {
        failed: words[0],
        binning: words[1],
        ptcl: words[2],
        tile: words[3],
        seg_counts: words[4],
        segments: words[5],
        blend: words[6],
        lines: words[7],
        active_tiles: words[8],
    }
}

/// `bytemuck::pod_read_unaligned`, on nine words. The words are the bytes in order, four bytes to a
/// word, in the byte order of the machine; which of the two orders that is, is left open.
/// `pod_read_unaligned` panics on a slice of another length.
#[verifier::external_body]
fn read_words(bytes: &[u8]) -> (words: [u32; 9])
    requires
        bytes@.len() == 36,
    ensures
        words@ == words_of(bytes@, false) || words@ == words_of(bytes@, true),
{
    bytemuck::pod_read_unaligned(bytes)
}

/// Targets that fit are used again, and a purge for the same frame leaves them alone.
pub proof fn fitting_targets_survive(
    state: PersistentState,
    targets: SchemeTargets,
    width: u32,
    height: u32,
    out_format: TextureFormat,
    direct_present: bool,
    gpu_progress: u64,
)
    requires
        state.cached_scheme_rt == Some(targets),
        targets_fit(targets.out, targets.layers, width, height, out_format, direct_present),
    ensures
        state.target_step(width, height, out_format, direct_present, gpu_progress) == TargetStep::Reuse(targets),
        !state.targets_mismatch(width, height, out_format, direct_present),
{
}

/// A change of the present mode never reuses render targets.
pub proof fn present_mode_change_retires_targets(
    targets: SchemeTargets,
    width: u32,
    height: u32,
    out_format: TextureFormat,
    direct_present: bool,
)
    requires
        targets_fit(targets.out, targets.layers, width, height, out_format, direct_present),
    ensures
        !targets_fit(targets.out, targets.layers, width, height, out_format, !direct_present),
{
}

} // verus!
