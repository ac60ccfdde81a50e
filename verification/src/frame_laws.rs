//! What carries over from one frame to the next, and what each frame is given.

use crate::filter::{FilterEdgeMode, FilterPrimitive, FilterUniform, LayerFilterEffect};
use crate::float::{distance, equal, greater, is_finite, is_nan, near, place64, units};
use crate::goldy_renderer::TargetStep;
use crate::pipeline_resources::MadeResources;
use crate::recording::Binding;
use crate::resource_proxy::{BindType, NodeAccess};
use crate::scheme_gpu_resources::{BufferStep, BumpStep, PipelineResources, PreparePlan, SceneStep};
use crate::scheme_render::{handles_from, CachedUniform, FilterUniformCache, UniformSource};
use crate::scheme_renderer::{access_list, steps_for, ReclaimStep, Signal};
use crate::worker_retention::{comes_before, same_effects, same_primitive, Region};
use crate::RenderParams;
use vstd::arithmetic::power2::{lemma_pow2_strictly_increases, lemma_pow2_unfold, pow2};
use vstd::prelude::*;

verus! {

/// The resources of a frame are those that its plan found, and else those that were made for it. Buffers have the
/// sizes of the plan.
pub proof fn frames_are_given_what_was_planned(
    resources: PipelineResources,
    plan: PreparePlan,
    made: MadeResources,
    params: RenderParams,
    config: crate::config::RenderConfig,
)
    requires
        resources.follows(plan, made, params, config),
    ensures
        plan.gradient.reused matches Some(handle) ==> resources.gradient == handle,
        plan.gradient.reused is None ==> resources.gradient == made.gradient,
        plan.image_atlas.reused matches Some(handle) ==> resources.image_atlas == handle,
        plan.image_atlas.reused is None ==> resources.image_atlas == made.image_atlas,
        plan.mask_atlas.reused matches Some(handle) ==> resources.mask_atlas == handle,
        plan.mask_atlas.reused is None ==> resources.mask_atlas == made.mask_atlas,
        plan.config matches Some(handle) ==> resources.config == handle,
        plan.config is None ==> resources.config == made.config,
        plan.scene matches SceneStep::Reuse(buffer) ==> resources.scene == buffer,
        plan.scene matches SceneStep::Acquire { bucket, .. } ==> resources.scene.size == bucket
            && resources.scene.handle == made.scene,
        plan.bump matches BumpStep::Reuse(buffer) ==> resources.bump == buffer,
        plan.bump matches BumpStep::Acquire { size, .. } ==> resources.bump.size == size && resources.bump.handle
            == made.bump,
        plan.pipeline.stable matches BufferStep::Reuse(buffers) ==> resources.stable == buffers,
        plan.pipeline.scratch matches BufferStep::Reuse(buffers) ==> resources.scratch == buffers,
        plan.targets matches TargetStep::Reuse(targets) ==> resources.out_image == targets.out
            && resources.filter_layers == targets.layers,
        plan.targets is Acquire ==> resources.out_image == made.out_image && resources.filter_layers
            == made.filter_layers,
        (resources.frame_width, resources.frame_height) == (params.width, params.height),
        resources.buffer_sizes == config.buffer_sizes,
        resources.config_uniform_value == plan.config_value,
{
}

/// The horizontal offset of a filter, zero where it has none.
pub open spec fn offset_x(p: FilterPrimitive) -> u32 {
    match p {
        FilterPrimitive::DropShadow { dx, .. } => dx,
        FilterPrimitive::Offset { dx, .. } => dx,
        _ => 0,
    }
}

/// The vertical offset of a filter, zero where it has none.
pub open spec fn offset_y(p: FilterPrimitive) -> u32 {
    match p {
        FilterPrimitive::DropShadow { dy, .. } => dy,
        FilterPrimitive::Offset { dy, .. } => dy,
        _ => 0,
    }
}

/// The deviation of a filter, zero where it has none.
pub open spec fn deviation(p: FilterPrimitive) -> u32 {
    match p {
        FilterPrimitive::DropShadow { std_dev, .. } => std_dev,
        FilterPrimitive::GaussianBlur { std_dev, .. } => std_dev,
        _ => 0,
    }
}

/// The packed color of a filter, zero where it has none.
pub open spec fn packed_color(p: FilterPrimitive) -> u32 {
    match p {
        FilterPrimitive::DropShadow { color, .. } => color.packed(),
        FilterPrimitive::Flood { color, .. } => color.packed(),
        _ => 0,
    }
}

/// How a filter treats edges, where it does.
pub open spec fn edges(p: FilterPrimitive) -> Option<FilterEdgeMode> {
    match p {
        FilterPrimitive::DropShadow { edge_mode, .. } => Some(edge_mode),
        FilterPrimitive::GaussianBlur { edge_mode, .. } => Some(edge_mode),
        _ => None,
    }
}

/// Two filters pass for the same exactly where they are of one kind and agree in all that they have: offsets,
/// deviation, color, edges and clip rectangle.
pub proof fn filters_are_the_same_in_all_parameters(a: FilterPrimitive, b: FilterPrimitive)
    ensures
        same_primitive(a, b) <==> {
            &&& (a is Flood) == (b is Flood)
            &&& (a is GaussianBlur) == (b is GaussianBlur)
            &&& (a is DropShadow) == (b is DropShadow)
            &&& near(offset_x(a), offset_x(b))
            &&& near(offset_y(a), offset_y(b))
            &&& near(deviation(a), deviation(b))
            &&& packed_color(a) == packed_color(b)
            &&& edges(a) == edges(b)
            &&& a matches FilterPrimitive::Flood { clip_rect: ra, .. } ==> (b matches FilterPrimitive::Flood {
                clip_rect: rb,
                ..
            } && ra@ == rb@)
        },
{
    assert(is_finite(0)) by {
        assert(0u32 & 0x7fff_ffff == 0) by (bit_vector);
    }
    crate::float::near_is_reflexive_and_symmetric(0, 0);
}

/// Lists of effects pass for the same only where they are as long as each other and agree effect by effect, in layer,
/// nesting, blend and filter.
pub proof fn effects_are_the_same_one_by_one(a: Seq<LayerFilterEffect>, b: Seq<LayerFilterEffect>, i: int)
    requires
        same_effects(a, b),
        0 <= i < a.len(),
    ensures
        a.len() == b.len(),
        a[i].layer_index == b[i].layer_index,
        a[i].layer_blend == b[i].layer_blend,
        a[i].is_nested == b[i].is_nested,
        near(offset_x(a[i].primitive), offset_x(b[i].primitive)),
        near(offset_y(a[i].primitive), offset_y(b[i].primitive)),
        near(deviation(a[i].primitive), deviation(b[i].primitive)),
        packed_color(a[i].primitive) == packed_color(b[i].primitive),
{
    filters_are_the_same_in_all_parameters(a[i].primitive, b[i].primitive);
}

/// Numbers pass for near where they differ by no more than 2 to the -23, and not where they differ by 2 to the -22.
/// What is not finite is near nothing.
pub proof fn near_numbers_are_close(a: u32, b: u32)
    ensures
        near(a, b) ==> is_finite(a) && is_finite(b),
        is_finite(a) && is_finite(b) && distance(units(a), units(b)) <= pow2(126) ==> near(a, b),
        near(a, b) ==> distance(units(a), units(b)) < pow2(127),
{
    lemma_pow2_strictly_increases(102, 126);
    lemma_pow2_unfold(127);
}

/// Numbers are compared by sign and then by size: a positive number is larger than a negative one, among positive
/// ones the larger pattern is larger, among negative ones the smaller. The two zeros are equal, and what is not a
/// number compares with nothing.
pub proof fn patterns_are_ordered_as_numbers(a: u32, b: u32)
    requires
        a & 0x7fff_ffff <= 0x7f80_0000,
        b & 0x7fff_ffff <= 0x7f80_0000,
    ensures
        a < 0x8000_0000 && b < 0x8000_0000 ==> (greater(a, b) <==> a > b) && (equal(a, b) <==> a == b),
        a >= 0x8000_0000 && b >= 0x8000_0000 ==> (greater(a, b) <==> a < b) && (equal(a, b) <==> a == b),
        a < 0x8000_0000 && b >= 0x8000_0000 ==> !greater(b, a) && (greater(a, b) <==> a > 0 || b > 0x8000_0000) && (equal(
            a,
            b,
        ) <==> a == 0 && b == 0x8000_0000),
        forall|n: u32| is_nan(n) ==> !(#[trigger] equal(n, a)) && !greater(n, a) && !greater(a, n),
{
    assert(a < 0x8000_0000u32 ==> a & 0x7fff_ffff == a) by (bit_vector);
    assert(b < 0x8000_0000u32 ==> b & 0x7fff_ffff == b) by (bit_vector);
    assert(a >= 0x8000_0000u32 ==> a & 0x7fff_ffff == a - 0x8000_0000u32) by (bit_vector);
    assert(b >= 0x8000_0000u32 ==> b & 0x7fff_ffff == b - 0x8000_0000u32) by (bit_vector);
}

/// A uniform in the cache serves for a pass only where all of its words mean the same.
pub proof fn same_passes_hold_the_same_values(a: FilterUniform, b: FilterUniform)
    requires
        a.same_pass(b),
    ensures
        a.width == b.width && a.height == b.height,
        a.pass_kind == b.pass_kind && a.edge_mode == b.edge_mode,
        a.color == b.color && a.pad == b.pad,
        !greater(a.std_dev, b.std_dev) && !greater(b.std_dev, a.std_dev) && !is_nan(a.std_dev),
        !greater(a.dx, b.dx) && !greater(b.dx, a.dx) && !is_nan(a.dx),
        !greater(a.dy, b.dy) && !greater(b.dy, a.dy) && !is_nan(a.dy),
{
}

/// The buffers that are released are those that are cached from the place on, and no others.
pub proof fn buffers_behind_the_passes_are_released(slots: Seq<Option<CachedUniform>>, from: int, buffer: u64)
    requires
        0 <= from,
    ensures
        handles_from(slots, from).contains(buffer) <==> exists|i: int|
            from <= i < slots.len() && (#[trigger] slots[i] matches Some(cached) && cached.buffer == buffer),
    decreases slots.len() - from,
{
    if from < slots.len() {
        let rest = handles_from(slots, from + 1);
        let list = handles_from(slots, from);
        buffers_behind_the_passes_are_released(slots, from + 1, buffer);
        let n = list.len() - rest.len();
        if list.contains(buffer) {
            let k = choose|k: int| 0 <= k < list.len() && list[k] == buffer;
            if k >= n {
                assert(rest[k - n] == buffer);
            } else {
                assert(slots[from] matches Some(cached) && cached.buffer == buffer);
            }
        }
        if exists|i: int| from <= i < slots.len() && (#[trigger] slots[i] matches Some(cached) && cached.buffer == buffer) {
            let i = choose|i: int|
                from <= i < slots.len() && (#[trigger] slots[i] matches Some(cached) && cached.buffer == buffer);
            if i == from {
                assert(list[0] == buffer);
            } else {
                assert(rest.contains(buffer));
                let k = choose|k: int| 0 <= k < rest.len() && rest[k] == buffer;
                assert(list[k + n] == buffer);
            }
        }
    }
}

/// Regions of an atlas are ordered by place first, left to right and then top to bottom, and then by size. Of two
/// different regions exactly one comes first.
pub proof fn regions_are_ordered(a: Region, b: Region, c: Region)
    ensures
        a.0 < b.0 ==> comes_before(a, b),
        a.0 == b.0 && a.1 < b.1 ==> comes_before(a, b),
        a.0 == b.0 && a.1 == b.1 && a.2 < b.2 ==> comes_before(a, b),
        a.0 == b.0 && a.1 == b.1 && a.2 == b.2 ==> (comes_before(a, b) <==> a.3 < b.3),
        comes_before(a, b) ==> !comes_before(b, a) && a != b,
        a != b ==> comes_before(a, b) || comes_before(b, a),
        comes_before(a, b) && comes_before(b, c) ==> comes_before(a, c),
{
}

/// Every signal is answered by what it asks for. Where too much is in flight, deletions are flushed only after the
/// oldest work is done, and returns are drained after that.
pub proof fn signals_are_answered(signal: Signal)
    ensures
        match signal {
            Signal::BoundaryCrossed { epoch } => {
                &&& steps_for(signal).len() == 2
                &&& steps_for(signal).first() is DrainReturns
                &&& steps_for(signal).last() == ReclaimStep::NotePresented(epoch)
            },
            Signal::Oversubscribed => {
                &&& steps_for(signal).len() == 3
                &&& steps_for(signal).first() is WaitOldest
                &&& steps_for(signal)[1] is FlushDeletions
                &&& steps_for(signal).last() is DrainReturns
            },
            Signal::SwapchainReturned { image_index } => {
                &&& steps_for(signal).len() == 1
                &&& steps_for(signal).first() == ReclaimStep::ReturnSlot(image_index)
            },
            Signal::SwapchainAcquired => steps_for(signal).len() == 0,
        },
{
}

/// A dispatch declares that it writes a resource exactly where its shader binds it for writing. The presented image
/// is accessed as the binding says, and what the shader does not describe may be written.
pub proof fn accesses_follow_the_bindings(bindings: Seq<Binding>, types: Seq<BindType>, i: int)
    requires
        0 <= i < bindings.len(),
    ensures
        access_list(bindings, types).len() == bindings.len(),
        bindings[i] matches Binding::Present(access) ==> access_list(bindings, types)[i] == access,
        !(bindings[i] is Present) && i < types.len() ==> (access_list(bindings, types)[i] == if types[i] is Buffer
            || types[i] is Image {
            NodeAccess::ReadWrite
        } else {
            NodeAccess::Read
        }),
        !(bindings[i] is Present) && i >= types.len() ==> access_list(bindings, types)[i] is ReadWrite,
{
}

/// The patterns of double numbers are placed by sign and then by size, with both zeros at one place.
pub proof fn double_patterns_are_placed(a: u64, b: u64)
    ensures
        a < 0x8000_0000_0000_0000 && b < 0x8000_0000_0000_0000 ==> (place64(a) < place64(b) <==> a < b),
        a >= 0x8000_0000_0000_0000 && b >= 0x8000_0000_0000_0000 ==> (place64(a) < place64(b) <==> a > b),
        a < 0x8000_0000_0000_0000 && b >= 0x8000_0000_0000_0000 ==> place64(b) <= 0 <= place64(a),
        place64(0) == 0,
        place64(0x8000_0000_0000_0000) == 0,
{
    assert(a < 0x8000_0000_0000_0000u64 ==> a & 0x7fff_ffff_ffff_ffff == a) by (bit_vector);
    assert(b < 0x8000_0000_0000_0000u64 ==> b & 0x7fff_ffff_ffff_ffff == b) by (bit_vector);
    assert(a >= 0x8000_0000_0000_0000u64 ==> a & 0x7fff_ffff_ffff_ffff == a - 0x8000_0000_0000_0000u64) by (bit_vector);
    assert(b >= 0x8000_0000_0000_0000u64 ==> b & 0x7fff_ffff_ffff_ffff == b - 0x8000_0000_0000_0000u64) by (bit_vector);
    assert(0u64 & 0x7fff_ffff_ffff_ffff == 0 && 0x8000_0000_0000_0000u64 & 0x7fff_ffff_ffff_ffff == 0) by (bit_vector);
}

/// A pass takes the uniform buffer that is cached for its place: as it is where it holds the same pass, to be written
/// anew where it holds another, and a new one where there is none.
pub proof fn passes_take_the_buffer_of_their_place(cache: FilterUniformCache, uniform: FilterUniform)
    ensures
        match cache.source_of(uniform) {
            UniformSource::Reuse(buffer) => cache.next < cache.slots@.len() && (cache.slots@[cache.next as int] matches Some(c)
                && c.buffer == buffer && c.uniform.width == uniform.width && c.uniform.pass_kind == uniform.pass_kind),
            UniformSource::Replace(buffer) => cache.next < cache.slots@.len() && (
            cache.slots@[cache.next as int] matches Some(c) && c.buffer == buffer && !c.uniform.same_pass(uniform)),
            UniformSource::Upload => cache.next < cache.slots@.len() ==> cache.slots@[cache.next as int] is None,
        },
{
}

} // verus!
