//! What reaches the GPU: pixels, masks, uniforms and slots, each in its place.

use crate::config::{ConfigUniform, RenderConfig, WorkgroupCountsGpu};
use crate::coverage_mask::CoverageMask;
use crate::filter::FilterUniform;
use crate::goldy_renderer::{PersistentState, TargetStep};
use crate::gpu_resources::{
    config_step_for, pool_exempt, ConfigStep, GpuBinding, GraphInputs, GraphPlan, RenderTargets, ResourceIndices,
};
use crate::image::ImageData;
use crate::pixels::{premultiplied, premultiplied_bytes};
use crate::resource_proxy::{BindType, ImageFormat, TextureRequest};
use crate::scheme_gpu_resources::{
    config_words, filter_words, frame_uniform, initial_shapes, mask_pixels, padded_scene, pipeline_step_for,
    writes_images, BufferStep, BumpStep, CachedPipeline, FrameInputs, PipelineStep, PreparePlan, RegionWrite,
};
use crate::RenderParams;
use vstd::prelude::*;

verus! {

/// Premultiplication rounds to the nearest value: a channel is never further than half a step from the exact
/// product of color and alpha.
pub proof fn premultiplication_is_nearest(channel: u8, alpha: u8)
    ensures
        -127 <= 255 * premultiplied(channel, alpha) - channel * alpha <= 127,
{
    assert(0 <= channel * alpha <= 255 * 255) by (nonlinear_arith)
        requires
            0 <= channel <= 255,
            0 <= alpha <= 255,
    ;
}

/// Premultiplying pixels scales the three colors of each pixel by the pixel's own alpha and keeps the alpha.
/// A part of a pixel at the end stays as it is.
pub proof fn pixels_are_premultiplied_by_their_alpha(bytes: Seq<u8>, pixel: int)
    requires
        0 <= pixel,
    ensures
        premultiplied_bytes(bytes).len() == bytes.len(),
        4 * pixel + 3 < bytes.len() ==> {
            let out = premultiplied_bytes(bytes);
            let alpha = bytes[4 * pixel + 3];
            &&& out[4 * pixel + 3] == alpha
            &&& -127 <= 255 * out[4 * pixel] - bytes[4 * pixel] * alpha <= 127
            &&& -127 <= 255 * out[4 * pixel + 1] - bytes[4 * pixel + 1] * alpha <= 127
            &&& -127 <= 255 * out[4 * pixel + 2] - bytes[4 * pixel + 2] * alpha <= 127
        },
        4 * pixel <= bytes.len() <= 4 * pixel + 3 ==> premultiplied_bytes(bytes).skip(4 * pixel) == bytes.skip(
            4 * pixel,
        ),
{
    let out = premultiplied_bytes(bytes);
    if 4 * pixel + 3 < bytes.len() {
        let alpha = bytes[4 * pixel + 3];
        premultiplication_is_nearest(bytes[4 * pixel], alpha);
        premultiplication_is_nearest(bytes[4 * pixel + 1], alpha);
        premultiplication_is_nearest(bytes[4 * pixel + 2], alpha);
    }
    if 4 * pixel <= bytes.len() <= 4 * pixel + 3 {
        assert(out.skip(4 * pixel) =~= bytes.skip(4 * pixel));
    }
}

/// A mask becomes gray pixels of full alpha, and one white pixel stands in for a mask that is not there.
pub proof fn masks_become_gray_pixels(mask: Option<&CoverageMask>, i: int)
    requires
        mask matches Some(m) ==> 0 <= i < m.data@.len(),
    ensures
        match mask {
            Some(m) => {
                let out = mask_pixels(mask);
                &&& out.len() == 4 * m.data@.len()
                &&& out[4 * i] == m.data@[i]
                &&& out[4 * i + 1] == m.data@[i]
                &&& out[4 * i + 2] == m.data@[i]
                &&& out[4 * i + 3] == 255
            },
            None => mask_pixels(mask) == seq![255u8, 255u8, 255u8, 255u8],
        },
{
}

/// Each image goes to its own place in the atlas, at its own size; its pixels are premultiplied exactly where
/// their alpha is straight.
pub proof fn images_are_written_in_place(
    writes: Seq<RegionWrite>,
    images: Seq<(ImageData, u32, u32)>,
    pixels: Seq<Vec<u8>>,
    n: int,
    i: int,
    pixel: int,
)
    requires
        writes_images(writes, images, pixels, n),
        0 <= i < n,
        0 <= pixel,
        4 * pixel + 3 < pixels[i]@.len(),
    ensures
        ({
            let (image, x, y) = images[i];
            let alpha = pixels[i]@[4 * pixel + 3];
            &&& writes.len() == n
            &&& writes[i].region.0 == x
            &&& writes[i].region.1 == y
            &&& writes[i].region.2 == image.width
            &&& writes[i].region.3 == image.height
            &&& writes[i].bytes@.len() == pixels[i]@.len()
            &&& image.alpha_type is AlphaPremultiplied ==> writes[i].bytes@ == pixels[i]@
            &&& image.alpha_type is Alpha ==> {
                &&& writes[i].bytes@[4 * pixel + 3] == alpha
                &&& -127 <= 255 * writes[i].bytes@[4 * pixel] - pixels[i]@[4 * pixel] * alpha <= 127
                &&& -127 <= 255 * writes[i].bytes@[4 * pixel + 1] - pixels[i]@[4 * pixel + 1] * alpha <= 127
                &&& -127 <= 255 * writes[i].bytes@[4 * pixel + 2] - pixels[i]@[4 * pixel + 2] * alpha <= 127
            }
        }),
{
    pixels_are_premultiplied_by_their_alpha(pixels[i]@, pixel);
}

/// The scene is uploaded as it is. Where it is empty a word of ones is uploaded, since no buffer is empty.
pub proof fn scenes_are_never_empty(packed: Seq<u8>)
    ensures
        padded_scene(packed).len() > 0,
        packed.len() > 0 ==> padded_scene(packed) == packed,
        packed.len() == 0 ==> padded_scene(packed).len() == 4,
        packed.len() == 0 ==> forall|i: int| 0 <= i < 4 ==> #[trigger] padded_scene(packed)[i] == 255,
{
}

/// The shaders find each value of the uniform at its word: the sizes of the target first, then the layout of
/// the scene, then the sizes of the buffers, and last what varies between dispatches.
pub proof fn uniform_values_are_in_their_words(c: ConfigUniform)
    ensures
        config_words(c).len() == 25,
        4 * config_words(c).len() == <ConfigUniform as crate::layout::Element>::spec_stride(),
        config_words(c)[0] == c.width_in_tiles,
        config_words(c)[1] == c.height_in_tiles,
        config_words(c)[2] == c.target_width,
        config_words(c)[3] == c.target_height,
        config_words(c)[4] == c.base_color,
        config_words(c)[5] == c.layout.n_draw_objects,
        config_words(c)[6] == c.layout.n_paths,
        config_words(c)[7] == c.layout.n_clips,
        config_words(c)[8] == c.layout.bin_data_start,
        config_words(c)[9] == c.layout.path_tag_base,
        config_words(c)[10] == c.layout.path_data_base,
        config_words(c)[11] == c.layout.draw_tag_base,
        config_words(c)[12] == c.layout.draw_data_base,
        config_words(c)[13] == c.layout.transform_base,
        config_words(c)[14] == c.layout.style_base,
        config_words(c)[15] == c.lines_size,
        config_words(c)[16] == c.binning_size,
        config_words(c)[17] == c.tiles_size,
        config_words(c)[18] == c.seg_counts_size,
        config_words(c)[19] == c.segments_size,
        config_words(c)[20] == c.blend_size,
        config_words(c)[21] == c.ptcl_size,
        config_words(c)[22] == c.tile_y_offset,
        config_words(c)[23] == c.flatten_thread_base,
        config_words(c)[24] == c.mask_active,
{
}

/// The filter shader finds each value of its uniform at its word.
pub proof fn filter_values_are_in_their_words(u: FilterUniform)
    ensures
        filter_words(u).len() == 9,
        filter_words(u)[0] == u.width,
        filter_words(u)[1] == u.height,
        filter_words(u)[2] == u.edge_mode,
        filter_words(u)[3] == u.pass_kind,
        filter_words(u)[4] == u.std_dev,
        filter_words(u)[5] == u.dx,
        filter_words(u)[6] == u.dy,
        filter_words(u)[7] == u.color,
{
}

/// The uniform of a frame differs from that of its configuration in one word at most: the last one, which
/// is set where there is a coverage mask.
pub proof fn masks_are_announced(config: RenderConfig, masked: bool, i: int)
    requires
        0 <= i < 24,
    ensures
        config_words(frame_uniform(config, masked))[i] == config_words(config.gpu)[i],
        masked ==> frame_uniform(config, masked).mask_active == 1,
        !masked ==> frame_uniform(config, masked) == config.gpu,
{
}

/// The uniform buffer holds the value of the frame: a buffer is kept as it is only where it holds the value,
/// and else the words of the value are written, to the buffer that is there or to a new one.
pub proof fn uniform_buffers_hold_the_value(cached: Option<(ConfigUniform, u64)>, value: ConfigUniform, step: ConfigStep)
    requires
        config_step_for(cached, value, step),
    ensures
        match step {
            ConfigStep::Keep(handle) => cached == Some((value, handle)),
            ConfigStep::Overwrite(handle, bytes) => {
                &&& cached matches Some(c) && c.1 == handle && c.0 != value
                &&& bytes@.len() == 100
            },
            ConfigStep::Upload(upload) => {
                &&& cached is None
                &&& upload.stride == 100
                &&& upload.bytes@.len() == 100
            },
        },
{
}

/// Pipeline buffers are used again exactly where all their sizes are those of the frame. Others are released,
/// both sets of them, and new ones are asked for, so that no buffer of another size is bound.
pub proof fn pipeline_buffers_have_their_sizes(
    cached: Option<CachedPipeline>,
    bs: crate::config::BufferSizes,
    step: PipelineStep,
)
    requires
        pipeline_step_for(cached, bs, step),
    ensures
        step.stable is Reuse <==> (cached matches Some(c) && c.buffer_sizes@ == bs@),
        step.scratch is Reuse <==> step.stable is Reuse,
        step.stable matches BufferStep::Reuse(b) ==> cached matches Some(c) && c.stable == b,
        step.scratch matches BufferStep::Reuse(b) ==> cached matches Some(c) && c.scratch == b,
        step.stable matches BufferStep::Acquire(v) ==> v@.len() == 7,
        step.scratch matches BufferStep::Acquire(v) ==> v@.len() == 14,
        step.released is Some <==> cached is Some && step.stable is Acquire,
        step.released matches Some(r) ==> cached matches Some(c) && r.0 == c.stable && r.1 == c.scratch,
{
}

/// A new indirect buffer starts out with the sizes that the host knows, and with none for the two stages whose
/// sizes the GPU writes.
pub proof fn indirect_buffers_start_with_their_sizes(counts: WorkgroupCountsGpu, i: int)
    requires
        0 <= i < 20,
    ensures
        initial_shapes(counts).len() == 20,
        match initial_shapes(counts)[i] {
            Some(size) => i != 14 && i != 18 && counts.entries@[i]@[0] == size.0 && counts.entries@[i]@[1] == size.1
                && counts.entries@[i]@[2] == size.2,
            None => i == 14 || i == 18,
        },
{
}

/// A shader that reads a resource is given its slot for reading, and one that writes it the slot for writing.
/// A texture that has no slot for sampling is read through its storage slot. Samplers have one slot.
pub proof fn resources_are_given_their_slots(indices: ResourceIndices, format: ImageFormat, slot: u32)
    ensures
        GpuBinding::Buf(indices).bound_slot(Some(BindType::BufReadOnly)) == indices.read,
        GpuBinding::Buf(indices).bound_slot(Some(BindType::Buffer)) == indices.write,
        GpuBinding::Buf(indices).bound_slot(Some(BindType::Uniform)) == indices.write,
        GpuBinding::Buf(indices).bound_slot(None) == indices.write,
        GpuBinding::Tex(indices).bound_slot(Some(BindType::Image(format))) == indices.write,
        GpuBinding::Tex(indices).bound_slot(None) == indices.write,
        indices.read is Some ==> GpuBinding::Tex(indices).bound_slot(Some(BindType::ImageRead(format)))
            == indices.read,
        indices.read is None && indices.write is Some ==> GpuBinding::Tex(indices).bound_slot(
            Some(BindType::ImageRead(format)),
        ) == indices.write,
        indices.read is None && indices.write is None ==> GpuBinding::Tex(indices).bound_slot(
            Some(BindType::ImageRead(format)),
        ) == indices.read_write,
        forall|t: Option<BindType>| #[trigger] GpuBinding::Sampler(slot).bound_slot(t) == Some(slot),
        forall|t: Option<BindType>| #[trigger] GpuBinding::PersistentBuf(slot).bound_slot(t) == Some(slot),
        GpuBinding::Buf(indices).slot_for(true) == indices.read,
        GpuBinding::Buf(indices).slot_for(false) == indices.write,
{
}

/// The slots that a shader is given stand in the order of its bindings, one for each.
pub proof fn slots_follow_the_bindings(bindings: Seq<GpuBinding>, types: Seq<BindType>, n: int, i: int)
    requires
        0 <= i < n <= bindings.len(),
        n <= types.len(),
        bindings[i] is Buf,
        types[i] is BufReadOnly || types[i] is Buffer,
        crate::gpu_resources::slot_at(bindings, types, i) is Some,
    ensures
        crate::gpu_resources::slots(bindings, types, n).len() == n,
        bindings[i] matches GpuBinding::Buf(indices) ==> Some(crate::gpu_resources::slots(bindings, types, n)[i]) == (
        if types[i] is BufReadOnly {
            indices.read
        } else {
            indices.write
        }),
{
}

/// A texture request has that size.
pub open spec fn sized(request: TextureRequest, width: int, height: int) -> bool {
    request.width == width && request.height == height
}

/// A frame is planned for what it brings along: the scene, the images, the ramps and the mask are what is
/// uploaded, each atlas has the size of what it holds or is a single texel, the render targets have the size of
/// the frame, and the uniform is that of the configuration.
pub open spec fn plan_serves(
    state: PersistentState,
    inputs: FrameInputs<'_>,
    packed: Seq<u8>,
    params: RenderParams,
    config: RenderConfig,
    plan: PreparePlan,
) -> bool {
    &&& packed.len() > 0 ==> plan.scene_bytes@ == packed
    &&& plan.scene_bytes@.len() > 0
    &&& if inputs.ramps_height == 0 {
        plan.gradient_bytes is None && sized(plan.gradient.texture, 1, 1)
    } else {
        &&& plan.gradient_bytes matches Some(bytes) && bytes@.len() == 4 * inputs.ramps_data@.len()
        &&& sized(plan.gradient.texture, inputs.ramps_width as int, inputs.ramps_height as int)
    }
    &&& !plan.gradient.texture.flags.copy_src
    &&& if inputs.images@.len() == 0 {
        sized(plan.image_atlas.texture, 1, 1)
    } else {
        sized(plan.image_atlas.texture, inputs.images_width as int, inputs.images_height as int)
    }
    &&& plan.image_atlas.texture.flags.copy_src
    &&& plan.image_writes@.len() == inputs.images@.len()
    &&& match inputs.coverage_mask {
        Some(mask) => {
            &&& sized(plan.mask_atlas.texture, mask.width as int, mask.height as int)
            &&& plan.mask_bytes@.len() == 4 * mask.data@.len()
            &&& plan.config_value.mask_active == 1
        },
        None => {
            &&& sized(plan.mask_atlas.texture, 1, 1)
            &&& plan.mask_bytes@.len() == 4
            &&& plan.config_value == config.gpu
        },
    }
    &&& plan.config_value.layout == config.gpu.layout
    &&& plan.config_value.target_width == config.gpu.target_width
    &&& plan.config_value.target_height == config.gpu.target_height
    &&& plan.config_value.base_color == config.gpu.base_color
    &&& match state.cached_config_uniform {
        Some((_, handle)) => plan.config == Some(handle),
        None => plan.config is None,
    }
    &&& plan.config_bytes@.len() == 100
    &&& plan.bump matches BumpStep::Acquire { size, .. } ==> size == 36 * config.buffer_sizes.bump_alloc@
    &&& plan.bump matches BumpStep::Reuse(buffer) ==> buffer.size == 36 * config.buffer_sizes.bump_alloc@
    &&& plan.targets is Reuse <==> plan.new_targets is None
    &&& plan.new_targets matches Some(targets) ==> {
        &&& sized(targets.layer, params.width as int, params.height as int)
        &&& targets.out is None <==> inputs.direct_present
        &&& targets.out matches Some(out) ==> sized(out, params.width as int, params.height as int) && out.format
            == inputs.out_image_format
    }
    &&& plan.targets matches TargetStep::Reuse(targets) ==> crate::retention_laws::suit(
        targets,
        params.width,
        params.height,
        inputs.out_image_format,
        inputs.direct_present,
    )
}

/// A frame of the graph renderer is planned for what it brings along, as one of the retained renderer is. Its
/// counters are cleared and can be read back.
pub open spec fn graph_plan_serves(
    inputs: GraphInputs<'_>,
    packed: Seq<u8>,
    params: RenderParams,
    config: RenderConfig,
    plan: GraphPlan,
) -> bool {
    let bump_bytes = 36 * config.buffer_sizes.bump_alloc@;
    &&& packed.len() > 0 ==> plan.scene.bytes@ == packed
    &&& plan.scene.bytes@.len() > 0
    &&& if inputs.ramps_height == 0 {
        plan.gradient.bytes is None && sized(plan.gradient.texture, 1, 1)
    } else {
        &&& plan.gradient.bytes matches Some(bytes) && bytes@.len() == 4 * inputs.ramps_data@.len()
        &&& sized(plan.gradient.texture, inputs.ramps_width as int, inputs.ramps_height as int)
    }
    &&& plan.image_atlas.bytes is None
    &&& if inputs.images@.len() == 0 {
        sized(plan.image_atlas.texture, 1, 1)
    } else {
        sized(plan.image_atlas.texture, inputs.images_width as int, inputs.images_height as int)
    }
    &&& plan.image_writes@.len() == inputs.images@.len()
    &&& match inputs.coverage_mask {
        Some(mask) => {
            &&& sized(plan.mask_atlas.texture, mask.width as int, mask.height as int)
            &&& plan.mask_atlas.bytes matches Some(bytes) && bytes@.len() == 4 * mask.data@.len()
            &&& plan.config_value.mask_active == 1
        },
        None => {
            &&& sized(plan.mask_atlas.texture, 1, 1)
            &&& plan.mask_atlas.bytes matches Some(bytes) && bytes@.len() == 4
            &&& plan.config_value == config.gpu
        },
    }
    &&& plan.config_value.layout == config.gpu.layout
    &&& plan.config_value.target_width == config.gpu.target_width
    &&& plan.config_value.target_height == config.gpu.target_height
    &&& plan.returned@.len() == (if plan.pipeline.released is Some {
        21int
    } else {
        0
    })
    &&& plan.bump.request.size == bump_bytes
    &&& plan.bump.request.stride == 36
    &&& plan.bump.cpu_readable
    &&& plan.bump.clear == Some((0u64, plan.bump.request.size))
    &&& plan.bump_clear.0 == 0 && plan.bump_clear.1 == bump_bytes
    &&& match plan.targets {
        RenderTargets::Reuse(out, layers) => inputs.cached_targets == Some((out, layers)),
        RenderTargets::Acquire(targets) => {
            &&& inputs.cached_targets is None
            &&& sized(targets.layer, params.width as int, params.height as int)
            &&& targets.out matches Some(out) && sized(out, params.width as int, params.height as int) && out.format
                == inputs.out_image_format
        },
    }
}

/// The counters and the dispatch sizes start at zero; buffers that the pipeline writes before it reads them do not have
/// to.
pub proof fn counters_start_at_zero()
    ensures
        pool_exempt("ekrano.bump_buf"@),
        pool_exempt("ekrano.indirect_dispatch"@),
        !pool_exempt("ekrano.tile_buf"@),
        !pool_exempt("ekrano.path_buf"@),
        !pool_exempt("ekrano.lines_buf"@),
        !pool_exempt("ekrano.segments_buf"@),
        !pool_exempt("ekrano.ptcl_buf"@),
{
    reveal_strlit("ekrano.bump_buf");
    reveal_strlit("ekrano.indirect_dispatch");
    reveal_strlit("ekrano.tile_buf");
    reveal_strlit("ekrano.path_buf");
    reveal_strlit("ekrano.lines_buf");
    reveal_strlit("ekrano.segments_buf");
    reveal_strlit("ekrano.ptcl_buf");
    assert("ekrano.bump_buf"@.len() == 15 && "ekrano.bump_buf"@[7] == 'b');
    assert("ekrano.indirect_dispatch"@.len() == 24);
    assert("ekrano.tile_buf"@[7] == 't' && "ekrano.path_buf"@[7] == 'p' && "ekrano.ptcl_buf"@[7] == 'p');
    assert("ekrano.tile_buf"@.len() == 15 && "ekrano.path_buf"@.len() == 15 && "ekrano.ptcl_buf"@.len() == 15);
    assert("ekrano.lines_buf"@.len() == 16 && "ekrano.segments_buf"@.len() == 19);
}

} // verus!
