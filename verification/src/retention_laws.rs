//! What is kept from one frame to the next: a worker only for a frame that has the resources it was
//! recorded with, an upload scheme only for a frame that fills the same targets, and textures only at
//! the size that the frame asks for.

use crate::config::BumpAllocators;
use crate::filter::LayerFilterEffect;
use crate::goldy_renderer::{
    reclaim_of, sanitized, AtlasTexture, PersistentState, PreparedFrame, SchemeTargets, SizedBuffer, TargetStep,
    TargetTexture,
};
use crate::resource_proxy::TextureFormat;
use crate::scheme_gpu_resources::{
    atlas_left, atlas_step, bump_step, scene_step_for, targets_for, BumpStep, SceneStep,
};
use crate::scheme_renderer::{dims_of_frame, key_of, running_max, tells_nothing};
use crate::worker_retention::{
    is_bucket_of, sorted_regions_are_unique, topology_of, upload_is_stale, worker_is_stale, worker_will_be_stale,
    Region, ResourceDims, UploadKey, WorkerTopology,
};
use vstd::prelude::*;

verus! {

/// Size of the gradient texture that a frame needs: one pixel where it has no color ramps.
pub open spec fn gradient_size(frame: PreparedFrame) -> (u32, u32) {
    if frame.ramps_height > 0 {
        (frame.ramps_width, frame.ramps_height)
    } else {
        (1, 1)
    }
}

/// Size of the image atlas that a frame needs: one pixel where it has no images.
pub open spec fn images_size(frame: PreparedFrame) -> (u32, u32) {
    if frame.image_entries@.len() > 0 {
        (frame.images_width, frame.images_height)
    } else {
        (1, 1)
    }
}

/// Size of the mask texture that a frame needs: one pixel where it has no mask.
pub open spec fn mask_size(frame: PreparedFrame) -> (u32, u32) {
    match frame.coverage_mask {
        Some(mask) => (mask.width, mask.height),
        None => (1, 1),
    }
}

/// The scenes of both frames fit the same buffer.
pub open spec fn same_bucket(a: PreparedFrame, b: PreparedFrame) -> bool {
    forall|bucket: int| is_bucket_of(bucket, a.packed@.len() as int) == is_bucket_of(bucket, b.packed@.len() as int)
}

/// An image of the frame lies in the region of the atlas.
pub open spec fn uses_region(frame: PreparedFrame, region: Region) -> bool {
    exists|i: int|
        0 <= i < frame.image_entries@.len() && {
            let (image, x, y) = #[trigger] frame.image_entries@[i];
            region == (x, y, image.width, image.height)
        }
}

/// The dimensions of a frame hold the sizes of the textures that the frame needs.
proof fn lemma_dims(frame: PreparedFrame, dims: ResourceDims)
    requires
        dims_of_frame(frame, dims),
        frame.image_entries@.len() <= usize::MAX,
    ensures
        (dims.gradient_width, dims.gradient_height) == gradient_size(frame),
        (dims.image_atlas_width, dims.image_atlas_height) == images_size(frame),
        (dims.mask_atlas_width, dims.mask_atlas_height) == mask_size(frame),
        (dims.ramps_width, dims.ramps_height) == (frame.ramps_width, frame.ramps_height),
        (dims.images_width, dims.images_height) == (frame.images_width, frame.images_height),
        is_bucket_of(dims.scene_bucket as int, frame.packed@.len() as int),
        forall|r: Region| dims.image_regions@.contains(r) == #[trigger] uses_region(frame, r),
{
    let regions = crate::scheme_renderer::regions_of(frame.image_entries@);
    assert forall|r: Region| dims.image_regions@.contains(r) == #[trigger] uses_region(frame, r) by {
        if regions.contains(r) {
            let i = regions.index_of(r);
            assert(regions[i] == r);
            assert(frame.image_entries@[i].0.width == r.2);
        }
        if uses_region(frame, r) {
            let i = choose|i: int|
                0 <= i < frame.image_entries@.len() && {
                    let (image, x, y) = #[trigger] frame.image_entries@[i];
                    r == (x, y, image.width, image.height)
                };
            assert(regions[i] == r);
        }
    }
}

proof fn lemma_one_bucket(a: PreparedFrame, b: PreparedFrame, bucket: int)
    requires
        is_bucket_of(bucket, a.packed@.len() as int),
        is_bucket_of(bucket, b.packed@.len() as int),
    ensures
        same_bucket(a, b),
{
    assert forall|other: int| is_bucket_of(other, a.packed@.len() as int) == is_bucket_of(
        other,
        b.packed@.len() as int,
    ) by {
        if is_bucket_of(other, a.packed@.len() as int) {
            crate::math::next_power_of_two_is_unique(
                bucket,
                other,
                crate::math::max_int(a.packed@.len() as int, 4),
            );
        }
        if is_bucket_of(other, b.packed@.len() as int) {
            crate::math::next_power_of_two_is_unique(
                bucket,
                other,
                crate::math::max_int(b.packed@.len() as int, 4),
            );
        }
    }
}

/// A retained worker has what it was recorded with. Where the worker is not stale for a frame, the
/// frame has no filters and the worker had none; it has the resolution, anti-aliasing, robustness,
/// format and present mode of the frame that the worker was recorded for, and the sizes of its
/// gradient texture, image atlas, mask texture, scene buffer and pipeline buffers; and the output
/// images are those that the worker writes.
pub proof fn retained_worker_has_its_resources(
    persistent: PersistentState,
    was: PreparedFrame,
    now: PreparedFrame,
    was_dims: ResourceDims,
    now_dims: ResourceDims,
    was_format: TextureFormat,
    now_format: TextureFormat,
    was_modes: (bool, bool),
    now_modes: (bool, bool),
    effects: Seq<LayerFilterEffect>,
    out_image: Option<u64>,
    output_texture: Option<u64>,
)
    requires
        dims_of_frame(was, was_dims),
        dims_of_frame(now, now_dims),
        persistent.cached_worker_topology == Some(
            topology_of(was.params, was.config, was_format, was_dims, was_modes.0, was_modes.1),
        ),
        !worker_is_stale(
            persistent,
            topology_of(now.params, now.config, now_format, now_dims, now_modes.0, now_modes.1),
            effects,
            out_image,
            output_texture,
        ),
    ensures
        effects.len() == 0,
        persistent.cached_worker_filter_effects@.len() == 0,
        gradient_size(was) == gradient_size(now),
        images_size(was) == images_size(now),
        mask_size(was) == mask_size(now),
        was.image_entries@.len() == now.image_entries@.len(),
        (was.coverage_mask is Some) == (now.coverage_mask is Some),
        same_bucket(was, now),
        was.params.width == now.params.width,
        was.params.height == now.params.height,
        was.params.antialiasing_method == now.params.antialiasing_method,
        was.params.robust == now.params.robust,
        was.config.buffer_sizes@ == now.config.buffer_sizes@,
        was_format == now_format,
        was_modes == now_modes,
        persistent.cached_worker_output_texture == output_texture,
        !now_modes.1 ==> persistent.cached_worker_out_image == out_image,
{
    assert(was.image_entries.len() == was.image_entries@.len());
    assert(now.image_entries.len() == now.image_entries@.len());
    lemma_dims(was, was_dims);
    lemma_dims(now, now_dims);
    lemma_one_bucket(was, now, now_dims.scene_bucket as int);
}

/// A frame that differs from the one the worker was recorded for only in what is uploaded keeps the
/// worker: the same resolution, anti-aliasing, robustness, format, present mode, buffer sizes, scene
/// bucket, ramps, images and mask, and no filters.
pub proof fn frames_of_one_shape_share_a_worker(
    persistent: PersistentState,
    was: PreparedFrame,
    now: PreparedFrame,
    was_dims: ResourceDims,
    now_dims: ResourceDims,
    format: TextureFormat,
    modes: (bool, bool),
    out_image: Option<u64>,
    output_texture: Option<u64>,
)
    requires
        dims_of_frame(was, was_dims),
        dims_of_frame(now, now_dims),
        persistent.cached_worker_topology == Some(
            topology_of(was.params, was.config, format, was_dims, modes.0, modes.1),
        ),
        persistent.cached_worker_filter_effects@.len() == 0,
        persistent.cached_worker_out_image == out_image || modes.1,
        persistent.cached_worker_output_texture == output_texture,
        (was.ramps_width, was.ramps_height) == (now.ramps_width, now.ramps_height),
        (was.images_width, was.images_height) == (now.images_width, now.images_height),
        was.image_entries@.len() == now.image_entries@.len(),
        mask_size(was) == mask_size(now),
        (was.coverage_mask is Some) == (now.coverage_mask is Some),
        same_bucket(was, now),
        was.params.width == now.params.width,
        was.params.height == now.params.height,
        was.params.antialiasing_method == now.params.antialiasing_method,
        was.params.robust == now.params.robust,
        was.config.buffer_sizes@ == now.config.buffer_sizes@,
    ensures
        !worker_is_stale(
            persistent,
            topology_of(now.params, now.config, format, now_dims, modes.0, modes.1),
            seq![],
            out_image,
            output_texture,
        ),
{
    assert(was.image_entries.len() == was.image_entries@.len());
    assert(now.image_entries.len() == now.image_entries@.len());
    lemma_dims(was, was_dims);
    lemma_dims(now, now_dims);
    assert(is_bucket_of(was_dims.scene_bucket as int, now.packed@.len() as int));
    crate::math::next_power_of_two_is_unique(
        was_dims.scene_bucket as int,
        now_dims.scene_bucket as int,
        crate::math::max_int(now.packed@.len() as int, 4),
    );
}

/// A worker is never predicted to be kept and then found stale, where the frame gets the cached
/// output image.
pub proof fn no_worker_is_kept_by_mistake(
    persistent: PersistentState,
    topology: WorkerTopology,
    effects: Seq<LayerFilterEffect>,
    output_texture: Option<u64>,
    out: TargetTexture,
    targets: SchemeTargets,
)
    requires
        persistent.cached_scheme_rt == Some(targets),
        targets.out == Some(out),
        !worker_will_be_stale(
            persistent,
            topology,
            effects,
            output_texture,
            topology.width,
            topology.height,
            topology.out_format,
        ),
    ensures
        !worker_is_stale(persistent, topology, effects, Some(out.handle), output_texture),
        !topology.direct_present ==> (out.width, out.height, out.format) == (
            topology.width,
            topology.height,
            topology.out_format,
        ),
{
}

/// A retained upload scheme fills the targets that it was recorded for: where it is not stale for a
/// frame, the frame has the scene bucket, the atlas sizes and the regions of images that the scheme
/// copies to. The other way round, such a frame keeps the scheme.
pub proof fn upload_scheme_has_its_targets(
    persistent: PersistentState,
    was: PreparedFrame,
    now: PreparedFrame,
    was_dims: ResourceDims,
    now_dims: ResourceDims,
    was_key: UploadKey,
    now_key: UploadKey,
)
    requires
        dims_of_frame(was, was_dims),
        dims_of_frame(now, now_dims),
        key_of(was_dims, was_key),
        key_of(now_dims, now_key),
        persistent.cached_upload_key == Some(was_key),
    ensures
        !upload_is_stale(persistent, now_key) <==> {
            &&& gradient_size(was) == gradient_size(now)
            &&& images_size(was) == images_size(now)
            &&& mask_size(was) == mask_size(now)
            &&& same_bucket(was, now)
            &&& forall|r: Region| uses_region(was, r) == uses_region(now, r)
        },
{
    assert(was.image_entries.len() == was.image_entries@.len());
    assert(now.image_entries.len() == now.image_entries@.len());
    lemma_dims(was, was_dims);
    lemma_dims(now, now_dims);
    if !upload_is_stale(persistent, now_key) {
        lemma_one_bucket(was, now, now_dims.scene_bucket as int);
        assert forall|r: Region| uses_region(was, r) == uses_region(now, r) by {
            assert(was_dims.image_regions@.contains(r) == uses_region(was, r));
            assert(now_dims.image_regions@.contains(r) == uses_region(now, r));
        }
    }
    if same_bucket(was, now) && forall|r: Region| uses_region(was, r) == uses_region(now, r) {
        assert(is_bucket_of(was_dims.scene_bucket as int, now.packed@.len() as int));
        crate::math::next_power_of_two_is_unique(
            was_dims.scene_bucket as int,
            now_dims.scene_bucket as int,
            crate::math::max_int(now.packed@.len() as int, 4),
        );
        assert forall|r: Region| was_dims.image_regions@.contains(r) == now_dims.image_regions@.contains(r) by {
            assert(uses_region(was, r) == uses_region(now, r));
        }
        sorted_regions_are_unique(was_dims.image_regions@, now_dims.image_regions@);
    }
}

/// An atlas is used again exactly where the cached one has the size, and it then stays cached. One of
/// another size is released, and is no longer cached.
pub proof fn atlases_are_kept_at_their_size(cached: Option<AtlasTexture>, dims: (u32, u32), copy_src: bool)
    ensures
        ({
            let step = atlas_step(cached, dims, copy_src);
            &&& (step.texture.width, step.texture.height) == dims
            &&& step.texture.flags.copy_dst
            &&& step.texture.flags.copy_src == copy_src
            &&& match cached {
                None => step.reused is None && step.released is None && atlas_left(cached, dims) is None,
                Some(tex) => if (tex.width, tex.height) == dims {
                    step.reused == Some(tex.handle) && step.released is None && atlas_left(cached, dims) == cached
                } else {
                    step.reused is None && step.released == Some(tex.handle) && atlas_left(cached, dims) is None
                },
            }
        }),
{
}

/// The scene buffer of a frame has room for the scene, so that no frame renders from one that is too
/// small. A new one is made only where there is none that is large enough, with less than twice the
/// room that is needed, and the one before it is retired.
pub proof fn scenes_fit_their_buffers(cached: Option<SizedBuffer>, bytes: int, step: SceneStep)
    requires
        scene_step_for(cached, bytes, step),
        0 <= bytes <= 0x8000_0000_0000_0000,
    ensures
        match step {
            SceneStep::Reuse(buffer) => cached == Some(buffer) && bytes <= buffer.size,
            SceneStep::Acquire { bucket, retired } => {
                &&& bytes <= bucket
                &&& 4 <= bucket
                &&& bytes > 4 ==> bucket < 2 * bytes
                &&& match cached {
                    Some(buffer) => retired == Some(buffer.handle) && buffer.size < bucket,
                    None => retired is None,
                }
            },
        },
{
    let bucket = choose|bucket: int|
        #![trigger is_bucket_of(bucket, bytes)]
        is_bucket_of(bucket, bytes) && step == (match cached {
            Some(buf) => if buf.size >= bucket {
                SceneStep::Reuse(buf)
            } else {
                SceneStep::Acquire { bucket: bucket as u64, retired: Some(buf.handle) }
            },
            None => SceneStep::Acquire { bucket: bucket as u64, retired: None },
        });
    vstd::arithmetic::power2::lemma2_to64_rest();
    assert(vstd::arithmetic::power2::pow2(63) == 0x8000_0000_0000_0000);
    assert(crate::math::is_power_of_two(0x8000_0000_0000_0000));
    assert(bucket <= 0x8000_0000_0000_0000);
    if bytes > 4 {
        crate::worker_retention::bucket_below_double(bucket, bytes);
    }
}

/// The bump buffer of a frame has the size that is asked for, and a cached one of another size is
/// retired.
pub proof fn bump_buffers_have_their_size(cached: Option<SizedBuffer>, size: u64)
    ensures
        match bump_step(cached, size) {
            BumpStep::Reuse(buffer) => cached == Some(buffer) && buffer.size == size,
            BumpStep::Acquire { size: asked, retired } => asked == size && match cached {
                Some(buffer) => buffer.size != size && retired == Some(buffer.handle),
                None => retired is None,
            },
        },
{
}

/// A texture has the size and format.
pub open spec fn has_shape(texture: TargetTexture, width: u32, height: u32, format: TextureFormat) -> bool {
    texture.width == width && texture.height == height && texture.format == format
}

/// The targets have the size of a frame, and an output image of its format unless the frame goes to
/// the screen directly. The layers, which are made together, have one size.
pub open spec fn suit(
    targets: SchemeTargets,
    width: u32,
    height: u32,
    format: TextureFormat,
    direct: bool,
) -> bool {
    &&& targets.layers[0].width == width && targets.layers[0].height == height
    &&& match targets.out {
        Some(out) => !direct && has_shape(out, width, height, format),
        None => direct,
    }
}

/// Render targets are used again exactly where they suit the frame. Others are handed back for
/// retirement.
pub proof fn render_targets_fit_their_frame(
    state: PersistentState,
    width: u32,
    height: u32,
    format: TextureFormat,
    direct: bool,
    progress: u64,
)
    ensures
        match state.target_step(width, height, format, direct, progress) {
            TargetStep::Reuse(targets) => state.cached_scheme_rt == Some(targets) && suit(
                targets,
                width,
                height,
                format,
                direct,
            ),
            TargetStep::Acquire { retired } => match state.cached_scheme_rt {
                Some(targets) => (retired matches Some(r) && r.0 == targets) && !suit(
                    targets,
                    width,
                    height,
                    format,
                    direct,
                ),
                None => retired is None,
            },
        },
        state.targets_mismatch(width, height, format, direct) == (state.cached_scheme_rt matches Some(targets) && !suit(
            targets,
            width,
            height,
            format,
            direct,
        )),
{
}

/// New render targets have the size of the frame; the output image has its format, and is left out
/// where the frame goes to the screen directly. All of them can be copied from and to.
pub proof fn new_targets_fit_their_frame(width: u32, height: u32, format: TextureFormat, direct: bool)
    ensures
        ({
            let targets = targets_for(width, height, format, direct);
            &&& match targets.out {
                Some(out) => !direct && (out.width, out.height, out.format) == (width, height, format)
                    && out.flags.copy_dst && out.flags.copy_src,
                None => direct,
            }
            &&& (targets.layer.width, targets.layer.height) == (width, height)
            &&& targets.layer.flags.copy_dst && targets.layer.flags.copy_src
        }),
{
}

/// Targets are dropped where heaps are sensitive, after the frame that used them if that is still in
/// flight; elsewhere they go back to the pool at once.
pub proof fn targets_are_dropped_after_use(sensitive: bool, timeline: u64, progress: u64)
    ensures
        reclaim_of(sensitive, timeline, progress).dropped == sensitive,
        match reclaim_of(sensitive, timeline, progress).wait {
            Some(t) => sensitive && t == timeline && progress < timeline,
            None => !sensitive || timeline == 0 || timeline <= progress,
        },
{
}

/// One of the counters of a frame.
pub open spec fn counter(b: BumpAllocators, i: int) -> int {
    if i == 0 {
        b.binning as int
    } else if i == 1 {
        b.ptcl as int
    } else if i == 2 {
        b.tile as int
    } else if i == 3 {
        b.seg_counts as int
    } else if i == 4 {
        b.segments as int
    } else if i == 5 {
        b.blend as int
    } else {
        b.lines as int
    }
}

/// Each estimate is the larger one of what was known and of what the frame used, and of the frame alone
/// where nothing was known. Counters say nothing exactly where all are zero and no allocation failed.
pub proof fn estimates_are_the_larger_counters(known: Option<BumpAllocators>, used: BumpAllocators, i: int)
    requires
        0 <= i < 7,
    ensures
        ({
            let next = counter(running_max(known, used), i);
            match known {
                Some(before) => {
                    &&& next >= counter(before, i)
                    &&& next >= counter(used, i)
                    &&& next == counter(before, i) || next == counter(used, i)
                },
                None => next == counter(used, i),
            }
        }),
        tells_nothing(used) ==> counter(used, i) == 0 && used.failed == 0,
        used.failed == 0 && (forall|k: int| 0 <= k < 7 ==> #[trigger] counter(used, k) == 0) ==> tells_nothing(used),
{
    assert(used.failed == 0 && (forall|k: int| 0 <= k < 7 ==> #[trigger] counter(used, k) == 0)
        ==> tells_nothing(used)) by {
        if forall|k: int| 0 <= k < 7 ==> #[trigger] counter(used, k) == 0 {
            assert(counter(used, 0) == 0 && counter(used, 1) == 0 && counter(used, 2) == 0 && counter(used, 3) == 0
                && counter(used, 4) == 0 && counter(used, 5) == 0 && counter(used, 6) == 0);
        }
    }
}

/// A counter of up to two to the power 24 is believed, and a larger one counts as zero. Whether an
/// allocation failed is kept.
pub proof fn implausible_counters_are_dropped(bump: BumpAllocators, i: int)
    requires
        0 <= i < 7,
    ensures
        counter(sanitized(bump), i) == (if counter(bump, i) <= 0x100_0000 {
            counter(bump, i)
        } else {
            0
        }),
        sanitized(bump).failed == bump.failed,
{
}

} // verus!
