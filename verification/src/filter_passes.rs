//! The passes of the filter shader that apply the layer filter effects of a frame after fine
//! rasterization.

use crate::config::WorkgroupSize;
use crate::filter::{plain_pass, FilterEdgeMode, FilterPrimitive, FilterUniform, LayerFilterEffect};
use crate::float::{divide_by_power, float_gt, greater, lowered, SIXTEEN_BITS};
use crate::math::{ceil_div, div_ceil, max_int, max_u32, min_int};
use crate::recording::{BindingList, Command, OutputKind, TextureSlot, FILTER_LAYERS};
use crate::resource_proxy::ShaderId;
use vstd::arithmetic::power2::pow2;
use vstd::prelude::*;

verus! {

/// What all passes of a frame have in common.
#[derive(Clone, Copy, Debug)]
pub struct FilterTarget {
    pub shader: ShaderId,
    pub width: u32,
    pub height: u32,
    pub output: OutputKind,
}

/// Workgroups that cover `width` by `height` pixels, 16 by 16 pixels each.
pub open spec fn pixel_groups(width: u32, height: u32) -> WorkgroupSize {
    (ceil_div(width as int, 16) as u32, ceil_div(height as int, 16) as u32, 1)
}

/// Counts the workgroups that cover `width` by `height` pixels.
pub fn groups_for(width: u32, height: u32) -> (wg: WorkgroupSize)
    ensures
        wg == pixel_groups(width, height),
{
    (div_ceil(width, 16), div_ceil(height, 16), 1)
}

/// A filter pass over the pixels that its uniform names. The texture that is sampled and the one
/// that is read directly may differ.
pub open spec fn pass2(
    target: FilterTarget,
    uniform: FilterUniform,
    sampled: TextureSlot,
    source: TextureSlot,
    dest: TextureSlot,
) -> Command {
    Command::Filter {
        shader: target.shader,
        uniform,
        groups: pixel_groups(uniform.width, uniform.height),
        bindings: BindingList::Filter { sampled, source, dest, output: target.output },
    }
}

/// A filter pass that samples and reads the same texture.
pub open spec fn pass(target: FilterTarget, uniform: FilterUniform, source: TextureSlot, dest: TextureSlot) -> Command {
    pass2(target, uniform, source, source, dest)
}

/// Requests a filter pass that samples and reads the same texture.
pub fn filter_dispatch(target: &FilterTarget, uniform: FilterUniform, source: TextureSlot, dest: TextureSlot) -> (c:
    Command)
    ensures
        c == pass(*target, uniform, source, dest),
{
    filter_dispatch_two_src(target, uniform, source, source, dest)
}

/// Requests a filter pass that samples one texture and reads another: the composition of a shadow
/// from a blurred source with the sharp foreground.
pub fn filter_dispatch_two_src(
    target: &FilterTarget,
    uniform: FilterUniform,
    sampled: TextureSlot,
    source: TextureSlot,
    dest: TextureSlot,
) -> (c: Command)
    ensures
        c == pass2(*target, uniform, sampled, source, dest),
{
    Command::Filter {
        shader: target.shader,
        uniform,
        groups: groups_for(uniform.width, uniform.height),
        bindings: BindingList::Filter { sampled, source, dest, output: target.output },
    }
}

/// A side of the image after `level` halvings, at least one pixel.
pub open spec fn level_side(full: u32, level: int) -> u32 {
    max_int(full as int / pow2(level as nat) as int, 1) as u32
}

/// The side of the image after `level` halvings.
pub fn halve(full: u32, level: u32) -> (side: u32)
    requires
        level <= 6,
    ensures
        side == level_side(full, level as int),
{
    proof {
        vstd::bits::lemma_u32_shr_is_div(full, level);
    }
    max_u32(full >> level, 1)
}

/// The number of levels of a blur pyramid, between one and six, from the rounded-down binary
/// logarithm of the deviation.
pub open spec fn clamped_levels(log2_floor: u32) -> u32 {
    if log2_floor < 1 {
        1
    } else if log2_floor > 6 {
        6
    } else {
        log2_floor
    }
}

/// Clamps the number of levels of a blur pyramid.
pub fn pyramid_levels(log2_floor: u32) -> (n: u32)
    ensures
        n == clamped_levels(log2_floor),
{
    if log2_floor < 1 {
        1
    } else if log2_floor > 6 {
        6
    } else {
        log2_floor
    }
}

/// Taking the textures of the pyramid.
pub open spec fn acquire_levels(target: FilterTarget, levels: int) -> Seq<Command> {
    Seq::new(
        levels as nat,
        |l: int|
            Command::Acquire {
                slot: TextureSlot::Level(l as usize),
                width: level_side(target.width, l + 1),
                height: level_side(target.height, l + 1),
                copies: false,
            },
    )
}

/// Halving the image from level to level.
pub open spec fn downsamples(target: FilterTarget, levels: int, source: TextureSlot) -> Seq<Command> {
    Seq::new(
        levels as nat,
        |l: int|
            pass(
                target,
                plain_pass(level_side(target.width, l + 1), level_side(target.height, l + 1), 9),
                if l == 0 {
                    source
                } else {
                    TextureSlot::Level((l - 1) as usize)
                },
                TextureSlot::Level(l as usize),
            ),
    )
}

/// The blur at the bottom level, horizontally and then vertically, with what is left of the
/// deviation at that size.
pub open spec fn bottom_blur(target: FilterTarget, levels: int, std_dev: u32, edge: FilterEdgeMode) -> Seq<Command> {
    let width = level_side(target.width, levels);
    let height = level_side(target.height, levels);
    let bottom = TextureSlot::Level((levels - 1) as usize);
    let sigma = lowered(std_dev, levels as u32);
    seq![
        Command::Acquire { slot: TextureSlot::BottomScratch, width, height, copies: false },
        pass(target, blur_uniform(width, height, true, sigma, edge), bottom, TextureSlot::BottomScratch),
        pass(target, blur_uniform(width, height, false, sigma, edge), TextureSlot::BottomScratch, bottom),
    ]
}

/// Doubling the image from the bottom level up to the full size.
pub open spec fn upsamples(target: FilterTarget, levels: int, dest: TextureSlot) -> Seq<Command> {
    Seq::new(
        levels as nat,
        |i: int|
            {
                let l = levels - 1 - i;
                if l == 0 {
                    pass(target, plain_pass(target.width, target.height, 11), TextureSlot::Level(0), dest)
                } else {
                    pass(
                        target,
                        plain_pass(level_side(target.width, l), level_side(target.height, l), 11),
                        TextureSlot::Level(l as usize),
                        TextureSlot::Level((l - 1) as usize),
                    )
                }
            },
    )
}

/// Giving the textures of the pyramid back.
pub open spec fn release_levels(levels: int) -> Seq<Command> {
    Seq::new(levels as nat, |l: int| Command::Release(TextureSlot::Level(l as usize))).push(
        Command::Release(TextureSlot::BottomScratch),
    )
}

/// A blur of `source` into `dest` over a pyramid of halved images.
#[verifier::opaque]
pub open spec fn pyramid_commands(
    target: FilterTarget,
    source: TextureSlot,
    dest: TextureSlot,
    std_dev: u32,
    edge: FilterEdgeMode,
    levels: int,
) -> Seq<Command> {
    acquire_levels(target, levels) + downsamples(target, levels, source) + bottom_blur(target, levels, std_dev, edge)
        + upsamples(target, levels, dest) + release_levels(levels)
}

/// One direction of a separable Gaussian blur.
pub open spec fn blur_uniform(width: u32, height: u32, horizontal: bool, std_dev: u32, edge: FilterEdgeMode) ->
    FilterUniform {
    FilterUniform {
        std_dev,
        edge_mode: edge.number(),
        ..plain_pass(
            width,
            height,
            if horizontal {
                0
            } else {
                1
            },
        )
    }
}

/// Requests a pyramid blur on `source`, with the blurred full-resolution result in `dest`.
///
/// The image is halved level by level, the bottom level is blurred with what is left of the
/// deviation, and the result is doubled back to the full size.
pub fn pyramid_blur(
    commands: &mut Vec<Command>,
    target: &FilterTarget,
    source: TextureSlot,
    dest: TextureSlot,
    std_dev: u32,
    edge: FilterEdgeMode,
    log2_floor: u32,
)
    requires
        greater(std_dev, SIXTEEN_BITS),
    ensures
        final(commands)@ == old(commands)@ + pyramid_commands(
            *target,
            source,
            dest,
            std_dev,
            edge,
            clamped_levels(log2_floor) as int,
        ),
{
    let levels: u32 = pyramid_levels(log2_floor);
    proof {
        lemma_large_deviation(std_dev);
    }
    let sigma: u32 = divide_by_power(std_dev, levels);
    let ghost start = commands@;
    let ghost acquired = acquire_levels(*target, levels as int);
    let mut l: u32 = 0;
    assert(commands@ =~= start + acquired.take(0));
    while l < levels
        invariant
            l <= levels <= 6,
            acquired == acquire_levels(*target, levels as int),
            commands@ == start + acquired.take(l as int),
        decreases levels - l,
    {
        let width: u32 = halve(target.width, l + 1);
        let height: u32 = halve(target.height, l + 1);
        commands.push(Command::Acquire { slot: TextureSlot::Level(l as usize), width, height, copies: false });
        assert(acquired.take(l + 1) =~= acquired.take(l as int).push(acquired[l as int]));
        assert(commands@ =~= start + acquired.take(l + 1));
        l = l + 1;
    }
    assert(acquired.take(levels as int) =~= acquired);
    let ghost mid = commands@;
    let ghost down = downsamples(*target, levels as int, source);
    let mut prev: TextureSlot = source;
    l = 0;
    assert(commands@ =~= mid + down.take(0));
    while l < levels
        invariant
            l <= levels <= 6,
            down == downsamples(*target, levels as int, source),
            prev == (if l == 0 {
                source
            } else {
                TextureSlot::Level((l - 1) as usize)
            }),
            commands@ == mid + down.take(l as int),
        decreases levels - l,
    {
        let uniform: FilterUniform = FilterUniform::downsample(
            halve(target.width, l + 1),
            halve(target.height, l + 1),
        );
        let level: TextureSlot = TextureSlot::Level(l as usize);
        commands.push(filter_dispatch(target, uniform, prev, level));
        assert(down.take(l + 1) =~= down.take(l as int).push(down[l as int]));
        assert(commands@ =~= mid + down.take(l + 1));
        prev = level;
        l = l + 1;
    }
    assert(down.take(levels as int) =~= down);
    let bottom: TextureSlot = TextureSlot::Level((levels - 1) as usize);
    let width: u32 = halve(target.width, levels);
    let height: u32 = halve(target.height, levels);
    commands.push(Command::Acquire { slot: TextureSlot::BottomScratch, width, height, copies: false });
    let across: FilterUniform = FilterUniform::gaussian_blur(width, height, true, sigma, edge);
    commands.push(filter_dispatch(target, across, bottom, TextureSlot::BottomScratch));
    let along: FilterUniform = FilterUniform::gaussian_blur(width, height, false, sigma, edge);
    commands.push(filter_dispatch(target, along, TextureSlot::BottomScratch, bottom));
    assert(commands@ =~= mid + down + bottom_blur(*target, levels as int, std_dev, edge));
    let ghost blurred = commands@;
    let ghost up = upsamples(*target, levels as int, dest);
    let mut left: u32 = levels;
    assert(commands@ =~= blurred + up.take(0));
    while left > 0
        invariant
            left <= levels <= 6,
            up == upsamples(*target, levels as int, dest),
            commands@ == blurred + up.take(levels - left),
        decreases left,
    {
        let ghost done: int = levels - left;
        left = left - 1;
        if left == 0 {
            let uniform: FilterUniform = FilterUniform::upsample(target.width, target.height);
            commands.push(filter_dispatch(target, uniform, TextureSlot::Level(0), dest));
        } else {
            let uniform: FilterUniform = FilterUniform::upsample(
                halve(target.width, left),
                halve(target.height, left),
            );
            commands.push(
                filter_dispatch(
                    target,
                    uniform,
                    TextureSlot::Level(left as usize),
                    TextureSlot::Level((left - 1) as usize),
                ),
            );
        }
        assert(up.take(done + 1) =~= up.take(done).push(up[done]));
        assert(commands@ =~= blurred + up.take(done + 1));
    }
    assert(up.take(levels as int) =~= up);
    let ghost raised = commands@;
    let ghost released = release_levels(levels as int);
    l = 0;
    assert(commands@ =~= raised + released.take(0));
    while l < levels
        invariant
            l <= levels <= 6,
            released == release_levels(levels as int),
            commands@ == raised + released.take(l as int),
        decreases levels - l,
    {
        commands.push(Command::Release(TextureSlot::Level(l as usize)));
        assert(released.take(l + 1) =~= released.take(l as int).push(released[l as int]));
        assert(commands@ =~= raised + released.take(l + 1));
        l = l + 1;
    }
    commands.push(Command::Release(TextureSlot::BottomScratch));
    assert(commands@ =~= raised + released);
    reveal(pyramid_commands);
    assert(commands@ =~= start + pyramid_commands(*target, source, dest, std_dev, edge, levels as int));
}

/// A number above sixteen has a pattern that six halvings leave with a full fraction.
proof fn lemma_large_deviation(bits: u32)
    requires
        greater(bits, SIXTEEN_BITS),
    ensures
        7 * 0x80_0000 <= bits <= 0x7f80_0000,
{
    assert(bits < 0x8000_0000 ==> bits & 0x7fff_ffff == bits) by (bit_vector);
    assert(0x4180_0000u32 & 0x7fff_ffff == 0x4180_0000) by (bit_vector);
}

/// The layer whose texture an effect works on.
pub open spec fn layer_of(effect: LayerFilterEffect) -> TextureSlot {
    TextureSlot::FilterLayer(min_int(effect.layer_index as int, FILTER_LAYERS - 1) as usize)
}

/// The layer that a nested effect takes its shadow from.
pub open spec fn inner_layer_of(effect: LayerFilterEffect) -> TextureSlot {
    TextureSlot::FilterLayer(min_int(max_int(effect.layer_index - 1, 0), FILTER_LAYERS - 1) as usize)
}

fn layer_slot(index: u32) -> (slot: TextureSlot)
    ensures
        slot == TextureSlot::FilterLayer(min_int(index as int, FILTER_LAYERS - 1) as usize),
{
    if index as usize > FILTER_LAYERS - 1 {
        TextureSlot::FilterLayer(FILTER_LAYERS - 1)
    } else {
        TextureSlot::FilterLayer(index as usize)
    }
}

/// A pass from the layer into the scratch texture, and the copy back.
pub open spec fn through_scratch(
    target: FilterTarget,
    uniform: FilterUniform,
    from: TextureSlot,
    layer: TextureSlot,
) -> Seq<Command> {
    seq![
        pass(target, uniform, from, TextureSlot::Scratch),
        pass(target, plain_pass(target.width, target.height, 5), TextureSlot::Scratch, layer),
    ]
}

fn push_through_scratch(
    commands: &mut Vec<Command>,
    target: &FilterTarget,
    uniform: FilterUniform,
    from: TextureSlot,
    layer: TextureSlot,
)
    ensures
        final(commands)@ == old(commands)@ + through_scratch(*target, uniform, from, layer),
{
    commands.push(filter_dispatch(target, uniform, from, TextureSlot::Scratch));
    let back: FilterUniform = FilterUniform::copy(target.width, target.height);
    commands.push(filter_dispatch(target, back, TextureSlot::Scratch, layer));
    assert(commands@ =~= old(commands)@ + through_scratch(*target, uniform, from, layer));
}

/// A drop shadow. A wide one is blurred over a pyramid first; a nested one leaves the foreground
/// to the inner layer.
pub open spec fn shadow_commands(
    target: FilterTarget,
    effect: LayerFilterEffect,
    dx: u32,
    dy: u32,
    std_dev: u32,
    color: u32,
    edge: FilterEdgeMode,
    levels: int,
) -> Seq<Command> {
    let (w, h) = (target.width, target.height);
    let layer = layer_of(effect);
    let inner = inner_layer_of(effect);
    if greater(std_dev, SIXTEEN_BITS) {
        let acquire = Command::Acquire { slot: TextureSlot::BlurResult, width: w, height: h, copies: false };
        let release = Command::Release(TextureSlot::BlurResult);
        if effect.is_nested {
            seq![acquire] + pyramid_commands(target, inner, TextureSlot::BlurResult, std_dev, edge, levels) + seq![
                pass2(
                    target,
                    FilterUniform { dx, dy, color, ..plain_pass(w, h, 14) },
                    TextureSlot::BlurResult,
                    inner,
                    layer,
                ),
                release,
            ]
        } else {
            seq![acquire] + pyramid_commands(target, layer, TextureSlot::BlurResult, std_dev, edge, levels) + seq![
                pass2(
                    target,
                    FilterUniform { dx, dy, color, ..plain_pass(w, h, 13) },
                    TextureSlot::BlurResult,
                    layer,
                    TextureSlot::Scratch,
                ),
                pass(target, plain_pass(w, h, 5), TextureSlot::Scratch, layer),
                release,
            ]
        }
    } else {
        let uniform = FilterUniform {
            edge_mode: edge.number(),
            std_dev,
            dx,
            dy,
            color,
            ..plain_pass(
                w,
                h,
                if effect.is_nested {
                    8
                } else {
                    4
                },
            )
        };
        through_scratch(
            target,
            uniform,
            if effect.is_nested {
                inner
            } else {
                layer
            },
            layer,
        )
    }
}

/// What one effect does to the texture of its layer. `levels` is the height of the pyramid that a
/// wide shadow is blurred over.
pub open spec fn effect_commands(target: FilterTarget, effect: LayerFilterEffect, levels: int) -> Seq<Command> {
    let (w, h) = (target.width, target.height);
    let layer = layer_of(effect);
    match effect.primitive {
        FilterPrimitive::GaussianBlur { std_dev, edge_mode } => seq![
            pass(target, blur_uniform(w, h, true, std_dev, edge_mode), layer, TextureSlot::Scratch),
            pass(target, blur_uniform(w, h, false, std_dev, edge_mode), TextureSlot::Scratch, layer),
        ],
        FilterPrimitive::Offset { dx, dy } => through_scratch(
            target,
            FilterUniform { dx, dy, edge_mode: FilterEdgeMode::Duplicate.number(), ..plain_pass(w, h, 2) },
            layer,
            layer,
        ),
        FilterPrimitive::Flood { color, clip_rect } => through_scratch(
            target,
            FilterUniform {
                edge_mode: clip_rect[0],
                std_dev: clip_rect[1],
                dx: clip_rect[2],
                dy: clip_rect[3],
                color: color.packed(),
                ..plain_pass(w, h, 3)
            },
            layer,
            layer,
        ),
        FilterPrimitive::DropShadow { dx, dy, std_dev, color, edge_mode } => shadow_commands(
            target,
            effect,
            dx,
            dy,
            std_dev,
            color.packed(),
            edge_mode,
            levels,
        ),
    }
}

/// What the first `n` effects do to the textures of their layers.
pub open spec fn effects_commands(
    target: FilterTarget,
    effects: Seq<LayerFilterEffect>,
    logs: Seq<u32>,
    n: int,
) -> Seq<Command>
    decreases n,
{
    if n <= 0 {
        seq![]
    } else {
        effects_commands(target, effects, logs, n - 1) + effect_commands(
            target,
            effects[n - 1],
            clamped_levels(logs[n - 1]) as int,
        )
    }
}

/// The composition of a filtered layer with the output.
pub open spec fn composite_of(target: FilterTarget, effect: LayerFilterEffect) -> Command {
    pass(
        target,
        FilterUniform { edge_mode: effect.layer_blend, ..plain_pass(target.width, target.height, 6) },
        layer_of(effect),
        TextureSlot::Output,
    )
}

/// The compositions of the first `n` effects that are nested, or of those that are not.
pub open spec fn composites(target: FilterTarget, effects: Seq<LayerFilterEffect>, nested: bool, n: int) -> Seq<Command>
    decreases n,
{
    if n <= 0 {
        seq![]
    } else {
        let before = composites(target, effects, nested, n - 1);
        if effects[n - 1].is_nested == nested {
            before.push(composite_of(target, effects[n - 1]))
        } else {
            before
        }
    }
}

/// The filter passes of a frame: each effect in order on its layer, then the compositions of the
/// nested layers with the output, then those of the others.
pub open spec fn filter_commands(target: FilterTarget, effects: Seq<LayerFilterEffect>, logs: Seq<u32>) -> Seq<Command> {
    let n = effects.len() as int;
    seq![
        Command::Acquire {
            slot: TextureSlot::Scratch,
            width: target.width,
            height: target.height,
            copies: true,
        },
    ] + effects_commands(target, effects, logs, n) + composites(target, effects, true, n) + composites(
        target,
        effects,
        false,
        n,
    ) + seq![Command::Release(TextureSlot::Scratch)]
}

fn push_shadow(
    commands: &mut Vec<Command>,
    target: &FilterTarget,
    effect: &LayerFilterEffect,
    dx: u32,
    dy: u32,
    std_dev: u32,
    color: u32,
    edge: FilterEdgeMode,
    log2_floor: u32,
)
    ensures
        final(commands)@ == old(commands)@ + shadow_commands(
            *target,
            *effect,
            dx,
            dy,
            std_dev,
            color,
            edge,
            clamped_levels(log2_floor) as int,
        ),
{
    let width: u32 = target.width;
    let height: u32 = target.height;
    let layer: TextureSlot = layer_slot(effect.layer_index);
    let inner: TextureSlot = layer_slot(
        if effect.layer_index > 0 {
            effect.layer_index - 1
        } else {
            0
        },
    );
    if float_gt(std_dev, SIXTEEN_BITS) {
        commands.push(Command::Acquire { slot: TextureSlot::BlurResult, width, height, copies: false });
        if effect.is_nested {
            pyramid_blur(commands, target, inner, TextureSlot::BlurResult, std_dev, edge, log2_floor);
            let uniform: FilterUniform = FilterUniform::shadow_composite_preblurred_nested(
                width,
                height,
                dx,
                dy,
                color,
            );
            commands.push(filter_dispatch_two_src(target, uniform, TextureSlot::BlurResult, inner, layer));
        } else {
            pyramid_blur(commands, target, layer, TextureSlot::BlurResult, std_dev, edge, log2_floor);
            let uniform: FilterUniform = FilterUniform::shadow_composite_preblurred(width, height, dx, dy, color);
            commands.push(
                filter_dispatch_two_src(target, uniform, TextureSlot::BlurResult, layer, TextureSlot::Scratch),
            );
            let back: FilterUniform = FilterUniform::copy(width, height);
            commands.push(filter_dispatch(target, back, TextureSlot::Scratch, layer));
        }
        commands.push(Command::Release(TextureSlot::BlurResult));
    } else if effect.is_nested {
        let uniform: FilterUniform = FilterUniform::drop_shadow_nested(width, height, dx, dy, std_dev, color, edge);
        push_through_scratch(commands, target, uniform, inner, layer);
    } else {
        let uniform: FilterUniform = FilterUniform::drop_shadow(width, height, dx, dy, std_dev, color, edge);
        push_through_scratch(commands, target, uniform, layer, layer);
    }
    assert(commands@ =~= old(commands)@ + shadow_commands(
        *target,
        *effect,
        dx,
        dy,
        std_dev,
        color,
        edge,
        clamped_levels(log2_floor) as int,
    ));
}

fn push_effect(commands: &mut Vec<Command>, target: &FilterTarget, effect: &LayerFilterEffect, log2_floor: u32)
    ensures
        final(commands)@ == old(commands)@ + effect_commands(*target, *effect, clamped_levels(log2_floor) as int),
{
    let width: u32 = target.width;
    let height: u32 = target.height;
    let layer: TextureSlot = layer_slot(effect.layer_index);
    match effect.primitive {
        FilterPrimitive::GaussianBlur { std_dev, edge_mode } => {
            let across: FilterUniform = FilterUniform::gaussian_blur(width, height, true, std_dev, edge_mode);
            commands.push(filter_dispatch(target, across, layer, TextureSlot::Scratch));
            let along: FilterUniform = FilterUniform::gaussian_blur(width, height, false, std_dev, edge_mode);
            commands.push(filter_dispatch(target, along, TextureSlot::Scratch, layer));
        },
        FilterPrimitive::Offset { dx, dy } => {
            let uniform: FilterUniform = FilterUniform::offset(width, height, dx, dy, FilterEdgeMode::Duplicate);
            push_through_scratch(commands, target, uniform, layer, layer);
        },
        FilterPrimitive::Flood { color, clip_rect } => {
            let uniform: FilterUniform = FilterUniform::flood(width, height, color.to_u32(), clip_rect);
            push_through_scratch(commands, target, uniform, layer, layer);
        },
        FilterPrimitive::DropShadow { dx, dy, std_dev, color, edge_mode } => {
            push_shadow(commands, target, effect, dx, dy, std_dev, color.to_u32(), edge_mode, log2_floor);
        },
    }
    assert(commands@ =~= old(commands)@ + effect_commands(*target, *effect, clamped_levels(log2_floor) as int));
}

fn push_composites(commands: &mut Vec<Command>, target: &FilterTarget, effects: &[LayerFilterEffect], nested: bool)
    ensures
        final(commands)@ == old(commands)@ + composites(*target, effects@, nested, effects@.len() as int),
{
    let mut i: usize = 0;
    assert(commands@ =~= old(commands)@ + composites(*target, effects@, nested, 0));
    while i < effects.len()
        invariant
            i <= effects.len(),
            commands@ == old(commands)@ + composites(*target, effects@, nested, i as int),
        decreases effects.len() - i,
    {
        let effect: &LayerFilterEffect = &effects[i];
        if effect.is_nested == nested {
            let uniform: FilterUniform = FilterUniform::composite_filtered_layer(
                target.width,
                target.height,
                effect.layer_blend,
            );
            commands.push(filter_dispatch(target, uniform, layer_slot(effect.layer_index), TextureSlot::Output));
        }
        i = i + 1;
        assert(commands@ =~= old(commands)@ + composites(*target, effects@, nested, i as int));
    }
}

/// Plans the filter passes after fine rasterization. `logs` holds for each effect the binary
/// logarithm of its deviation, rounded down; it sets the height of the pyramid that a wide
/// shadow is blurred over.
///
/// Without pixels, without effects or without the filter shader there is nothing to do.
pub fn record_filter_effects(
    effects: &[LayerFilterEffect],
    logs: &[u32],
    filter_pass: Option<ShaderId>,
    width: u32,
    height: u32,
    output: OutputKind,
) -> (commands: Vec<Command>)
    requires
        effects@.len() == logs@.len(),
    ensures
        commands@ == (if width == 0 || height == 0 || effects@.len() == 0 {
            seq![]
        } else {
            match filter_pass {
                Some(shader) => filter_commands(FilterTarget { shader, width, height, output }, effects@, logs@),
                None => seq![],
            }
        }),
{
    let mut commands: Vec<Command> = Vec::new();
    if width == 0 || height == 0 || effects.len() == 0 {
        return commands;
    }
    let target: FilterTarget = match filter_pass {
        Some(shader) => FilterTarget { shader, width, height, output },
        None => {
            return commands;
        },
    };
    commands.push(Command::Acquire { slot: TextureSlot::Scratch, width, height, copies: true });
    let ghost start = commands@;
    let mut i: usize = 0;
    assert(commands@ =~= start + effects_commands(target, effects@, logs@, 0));
    while i < effects.len()
        invariant
            i <= effects.len(),
            effects@.len() == logs@.len(),
            commands@ == start + effects_commands(target, effects@, logs@, i as int),
        decreases effects.len() - i,
    {
        push_effect(&mut commands, &target, &effects[i], logs[i]);
        i = i + 1;
        assert(commands@ =~= start + effects_commands(target, effects@, logs@, i as int));
    }
    push_composites(&mut commands, &target, effects, true);
    push_composites(&mut commands, &target, effects, false);
    commands.push(Command::Release(TextureSlot::Scratch));
    assert(commands@ =~= filter_commands(target, effects@, logs@));
    commands
}

/// Clearing the textures of all filter layers, in a frame that has effects, pixels and the filter
/// shader.
pub open spec fn clear_commands(
    any_effect: bool,
    filter_pass: Option<ShaderId>,
    width: u32,
    height: u32,
    output: OutputKind,
    source: TextureSlot,
) -> Seq<Command> {
    match filter_pass {
        Some(shader) if any_effect && width > 0 && height > 0 => Seq::new(
            FILTER_LAYERS as nat,
            |l: int|
                pass(
                    FilterTarget { shader, width, height, output },
                    plain_pass(width, height, 7),
                    source,
                    TextureSlot::FilterLayer(l as usize),
                ),
        ),
        _ => seq![],
    }
}

/// Requests that the textures of the filter layers are cleared.
pub fn push_clears(
    commands: &mut Vec<Command>,
    any_effect: bool,
    filter_pass: Option<ShaderId>,
    width: u32,
    height: u32,
    output: OutputKind,
    source: TextureSlot,
)
    ensures
        final(commands)@ == old(commands)@ + clear_commands(any_effect, filter_pass, width, height, output, source),
{
    let ghost clears = clear_commands(any_effect, filter_pass, width, height, output, source);
    if any_effect && width > 0 && height > 0 {
        if let Some(shader) = filter_pass {
            let target: FilterTarget = FilterTarget { shader, width, height, output };
            let uniform: FilterUniform = FilterUniform::clear_transparent(width, height);
            let mut l: usize = 0;
            assert(commands@ =~= old(commands)@ + clears.take(0));
            while l < FILTER_LAYERS
                invariant
                    l <= FILTER_LAYERS,
                    any_effect && width > 0 && height > 0,
                    filter_pass == Some(shader),
                    target == (FilterTarget { shader, width, height, output }),
                    uniform == plain_pass(width, height, 7),
                    clears == clear_commands(any_effect, filter_pass, width, height, output, source),
                    commands@ == old(commands)@ + clears.take(l as int),
                decreases FILTER_LAYERS - l,
            {
                commands.push(filter_dispatch(&target, uniform, source, TextureSlot::FilterLayer(l)));
                assert(clears.take(l + 1) =~= clears.take(l as int).push(clears[l as int]));
                assert(commands@ =~= old(commands)@ + clears.take(l + 1));
                l = l + 1;
            }
            assert(clears.take(l as int) =~= clears);
        }
    }
    assert(commands@ =~= old(commands)@ + clears);
}

/// How often a texture is taken, less how often it is given back.
pub open spec fn held(commands: Seq<Command>, slot: TextureSlot) -> int
    decreases commands.len(),
{
    if commands.len() == 0 {
        0
    } else {
        held(commands.drop_last(), slot) + hold_change(commands.last(), slot)
    }
}

/// What a request changes in how often a texture is held.
pub open spec fn hold_change(command: Command, slot: TextureSlot) -> int {
    match command {
        Command::Acquire { slot: taken, .. } => if taken == slot {
            1
        } else {
            0
        },
        Command::Release(returned) => if returned == slot {
            -1
        } else {
            0
        },
        _ => 0,
    }
}

proof fn lemma_held_single(command: Command, slot: TextureSlot)
    ensures
        held(seq![command], slot) == hold_change(command, slot),
{
    assert(seq![command].drop_last() =~= seq![]);
    assert(held(seq![], slot) == 0);
}

proof fn lemma_held_concat(a: Seq<Command>, b: Seq<Command>, slot: TextureSlot)
    ensures
        held(a + b, slot) == held(a, slot) + held(b, slot),
    decreases b.len(),
{
    if b.len() == 0 {
        assert(a + b =~= a);
    } else {
        lemma_held_concat(a, b.drop_last(), slot);
        assert((a + b).drop_last() =~= a + b.drop_last());
        assert((a + b).last() == b.last());
    }
}

proof fn lemma_only_passes(commands: Seq<Command>, slot: TextureSlot)
    requires
        forall|i: int| 0 <= i < commands.len() ==> (#[trigger] commands[i]) is Filter,
    ensures
        held(commands, slot) == 0,
    decreases commands.len(),
{
    if commands.len() > 0 {
        assert forall|i: int| 0 <= i < commands.len() - 1 implies (#[trigger] commands.drop_last()[i]) is Filter by {
            assert(commands[i] is Filter);
        }
        lemma_only_passes(commands.drop_last(), slot);
        assert(commands.last() is Filter);
    }
}

proof fn lemma_levels_balance(target: FilterTarget, levels: int, slot: TextureSlot)
    requires
        0 <= levels <= 6,
    ensures
        held(acquire_levels(target, levels), slot) + held(
            release_levels(levels).drop_last(),
            slot,
        ) == 0,
    decreases levels,
{
    if levels > 0 {
        lemma_levels_balance(target, levels - 1, slot);
        assert(acquire_levels(target, levels).drop_last() =~= acquire_levels(target, levels - 1));
        assert(release_levels(levels).drop_last().drop_last() =~= release_levels(levels - 1).drop_last());
        assert(release_levels(levels).drop_last().last() == Command::Release(
            TextureSlot::Level((levels - 1) as usize),
        ));
    }
}

proof fn lemma_pyramid_balance(
    target: FilterTarget,
    source: TextureSlot,
    dest: TextureSlot,
    std_dev: u32,
    edge: FilterEdgeMode,
    levels: int,
    slot: TextureSlot,
)
    requires
        1 <= levels <= 6,
    ensures
        held(pyramid_commands(target, source, dest, std_dev, edge, levels), slot) == 0,
{
    reveal(pyramid_commands);
    let a = acquire_levels(target, levels);
    let d = downsamples(target, levels, source);
    let b = bottom_blur(target, levels, std_dev, edge);
    let u = upsamples(target, levels, dest);
    let r = release_levels(levels);
    lemma_held_concat(a, d, slot);
    lemma_held_concat(a + d, b, slot);
    lemma_held_concat(a + d + b, u, slot);
    lemma_held_concat(a + d + b + u, r, slot);
    lemma_only_passes(d, slot);
    lemma_only_passes(u, slot);
    lemma_levels_balance(target, levels, slot);
    lemma_only_passes(b.skip(1), slot);
    assert(b =~= seq![b[0]] + b.skip(1));
    lemma_held_concat(seq![b[0]], b.skip(1), slot);
    lemma_held_single(b[0], slot);
    assert(r.last() == Command::Release(TextureSlot::BottomScratch));
}

proof fn lemma_effect_balance(target: FilterTarget, effect: LayerFilterEffect, levels: int, slot: TextureSlot)
    requires
        1 <= levels <= 6,
    ensures
        held(effect_commands(target, effect, levels), slot) == 0,
{
    let all = effect_commands(target, effect, levels);
    if effect.primitive is DropShadow && greater(effect.primitive->DropShadow_std_dev, SIXTEEN_BITS) {
        if let FilterPrimitive::DropShadow { dx, dy, std_dev, color, edge_mode } = effect.primitive {
            let from = if effect.is_nested {
                inner_layer_of(effect)
            } else {
                layer_of(effect)
            };
            let head = seq![all[0]];
            let pyramid = pyramid_commands(target, from, TextureSlot::BlurResult, std_dev, edge_mode, levels);
            let tail = all.skip(1 + pyramid.len() as int);
            assert(all =~= head + pyramid + tail);
            lemma_pyramid_balance(target, from, TextureSlot::BlurResult, std_dev, edge_mode, levels, slot);
            lemma_held_concat(head, pyramid, slot);
            lemma_held_concat(head + pyramid, tail, slot);
            lemma_only_passes(tail.drop_last(), slot);
            lemma_held_single(all[0], slot);
        }
    } else {
        lemma_only_passes(all, slot);
    }
}

proof fn lemma_effects_balance(
    target: FilterTarget,
    effects: Seq<LayerFilterEffect>,
    logs: Seq<u32>,
    n: int,
    slot: TextureSlot,
)
    ensures
        held(effects_commands(target, effects, logs, n), slot) == 0,
    decreases n,
{
    if n > 0 {
        lemma_effects_balance(target, effects, logs, n - 1, slot);
        let levels = clamped_levels(logs[n - 1]) as int;
        lemma_effect_balance(target, effects[n - 1], levels, slot);
        lemma_held_concat(
            effects_commands(target, effects, logs, n - 1),
            effect_commands(target, effects[n - 1], levels),
            slot,
        );
    }
}

proof fn lemma_composites_are_passes(target: FilterTarget, effects: Seq<LayerFilterEffect>, nested: bool, n: int)
    ensures
        forall|i: int|
            0 <= i < composites(target, effects, nested, n).len() ==> (#[trigger] composites(
                target,
                effects,
                nested,
                n,
            )[i]) is Filter,
    decreases n,
{
    if n > 0 {
        lemma_composites_are_passes(target, effects, nested, n - 1);
    }
}

/// Every texture that the filter passes of a frame take, they give back.
pub proof fn textures_are_given_back(
    target: FilterTarget,
    effects: Seq<LayerFilterEffect>,
    logs: Seq<u32>,
    slot: TextureSlot,
)
    ensures
        held(filter_commands(target, effects, logs), slot) == 0,
{
    let n = effects.len() as int;
    let head = seq![
        Command::Acquire {
            slot: TextureSlot::Scratch,
            width: target.width,
            height: target.height,
            copies: true,
        },
    ];
    let e = effects_commands(target, effects, logs, n);
    let inner = composites(target, effects, true, n);
    let outer = composites(target, effects, false, n);
    let tail = seq![Command::Release(TextureSlot::Scratch)];
    lemma_effects_balance(target, effects, logs, n, slot);
    lemma_composites_are_passes(target, effects, true, n);
    lemma_composites_are_passes(target, effects, false, n);
    lemma_only_passes(inner, slot);
    lemma_only_passes(outer, slot);
    lemma_held_concat(head, e, slot);
    lemma_held_concat(head + e, inner, slot);
    lemma_held_concat(head + e + inner, outer, slot);
    lemma_held_concat(head + e + inner + outer, tail, slot);
    lemma_held_single(head[0], slot);
    lemma_held_single(tail[0], slot);
}

/// Every effect is composited with the output once, and the nested ones come first.
pub proof fn every_effect_is_composited(target: FilterTarget, effects: Seq<LayerFilterEffect>, n: int, i: int)
    requires
        0 <= i < n <= effects.len(),
    ensures
        composites(target, effects, true, n).len() + composites(target, effects, false, n).len() == n,
        composites(target, effects, effects[i].is_nested, n).contains(composite_of(target, effects[i])),
    decreases n,
{
    let list = composites(target, effects, effects[i].is_nested, n);
    if i < n - 1 {
        every_effect_is_composited(target, effects, n - 1, i);
        let before = composites(target, effects, effects[i].is_nested, n - 1);
        let k = choose|k: int| 0 <= k < before.len() && before[k] == composite_of(target, effects[i]);
        assert(list[k] == composite_of(target, effects[i]));
    } else {
        if n > 1 {
            every_effect_is_composited(target, effects, n - 1, 0);
        }
        assert(list.last() == composite_of(target, effects[i]));
    }
}

} // verus!
