//! What the filter passes of a frame amount to: each effect with its own parameters on its own layer,
//! one pass feeding the next, and every layer composited once.

use crate::filter::{FilterEdgeMode, FilterPrimitive, LayerFilterEffect};
use crate::filter_passes::{
    acquire_levels, bottom_blur, clear_commands, composites, downsamples, effect_commands, effects_commands,
    filter_commands, level_side, pixel_groups, pyramid_commands, release_levels, upsamples, FilterTarget,
};
use crate::float::{exponent, greater, is_finite, lowered, scale, significand, units};
use crate::recording::{BindingList, Command, OutputKind, TextureSlot};
use crate::resource_proxy::ShaderId;
use vstd::arithmetic::power2::{lemma_pow2_adds, lemma_pow2_unfold, pow2};
use vstd::prelude::*;

verus! {

/// The number of an edge mode, as shaders read it.
pub open spec fn edge_number(edge: FilterEdgeMode) -> int {
    if edge is NoEdge {
        0
    } else if edge is Duplicate {
        1
    } else if edge is Wrap {
        2
    } else {
        3
    }
}

/// The shadow is too wide to be blurred in one pass: its deviation is above sixteen.
pub open spec fn is_wide(primitive: FilterPrimitive) -> bool {
    primitive matches FilterPrimitive::DropShadow { std_dev, .. } && greater(std_dev, 0x4180_0000)
}

/// How often the image of a wide shadow is halved.
pub open spec fn halvings(log: u32) -> int {
    if log == 0 {
        1
    } else if log <= 6 {
        log as int
    } else {
        6
    }
}

/// The number of requests of an effect.
pub open spec fn effect_size(effect: LayerFilterEffect, log: u32) -> int {
    if is_wide(effect.primitive) {
        4 * halvings(log) + (if effect.is_nested {
            7int
        } else {
            8int
        })
    } else {
        2
    }
}

/// The place of the first request of an effect, behind that for the scratch texture.
pub open spec fn effect_start(effects: Seq<LayerFilterEffect>, logs: Seq<u32>, i: int) -> int
    decreases i,
{
    if i <= 0 {
        1
    } else {
        effect_start(effects, logs, i - 1) + effect_size(effects[i - 1], logs[i - 1])
    }
}

/// How many of the first `n` effects are nested.
pub open spec fn nested_among(effects: Seq<LayerFilterEffect>, n: int) -> int
    decreases n,
{
    if n <= 0 {
        0
    } else {
        nested_among(effects, n - 1) + (if effects[n - 1].is_nested {
            1int
        } else {
            0int
        })
    }
}

/// The layer of an effect; all beyond the fourth share its texture.
pub open spec fn own_layer(effect: LayerFilterEffect) -> TextureSlot {
    if effect.layer_index < 4 {
        TextureSlot::FilterLayer(effect.layer_index as usize)
    } else {
        TextureSlot::FilterLayer(3)
    }
}

/// Where an effect starts from: its own layer, or the layer inside of it for a nested shadow.
pub open spec fn origin(effect: LayerFilterEffect) -> TextureSlot {
    if effect.is_nested && effect.primitive is DropShadow {
        if effect.layer_index == 0 {
            TextureSlot::FilterLayer(0)
        } else if effect.layer_index <= 4 {
            TextureSlot::FilterLayer((effect.layer_index - 1) as usize)
        } else {
            TextureSlot::FilterLayer(3)
        }
    } else {
        own_layer(effect)
    }
}

/// The request is a filter pass of a kind.
pub open spec fn is_kind(command: Command, kind: int) -> bool {
    command matches Command::Filter { uniform, .. } && uniform.pass_kind == kind
}

/// The pass shifts by the given distance and paints with the given color.
pub open spec fn shifts_and_paints(command: Command, dx: u32, dy: u32, color: u32) -> bool {
    command matches Command::Filter { uniform, .. } && uniform.dx == dx && uniform.dy == dy && uniform.color == color
}

/// The pass blurs by the given deviation.
pub open spec fn blurs_by(command: Command, std_dev: u32, edge: FilterEdgeMode) -> bool {
    command matches Command::Filter { uniform, .. } && uniform.std_dev == std_dev && uniform.edge_mode == edge_number(
        edge,
    )
}

/// Follows an image through the passes: a pass that samples the texture where the image is moves it
/// to the texture that the pass writes. A pass that samples another texture loses the image.
pub open spec fn carried(commands: Seq<Command>, from: TextureSlot) -> Option<TextureSlot>
    decreases commands.len(),
{
    if commands.len() == 0 {
        Some(from)
    } else {
        match carried(commands.drop_last(), from) {
            Some(at) => match commands.last() {
                Command::Filter { bindings: BindingList::Filter { sampled, dest, .. }, .. } => if sampled == at {
                    Some(dest)
                } else {
                    None
                },
                Command::Filter { .. } => None,
                _ => Some(at),
            },
            None => None,
        }
    }
}

/// Which texture a pass writes.
pub open spec fn written(command: Command) -> Option<TextureSlot> {
    match command {
        Command::Filter { bindings: BindingList::Filter { dest, .. }, .. } => Some(dest),
        _ => None,
    }
}

/// The texture lives no longer than the filter passes of a frame.
pub open spec fn is_temporary(slot: TextureSlot) -> bool {
    slot is Scratch || slot is BlurResult || slot is Level || slot is BottomScratch
}

proof fn lemma_carried_concat(a: Seq<Command>, b: Seq<Command>, from: TextureSlot, mid: TextureSlot)
    requires
        carried(a, from) == Some(mid),
    ensures
        carried(a + b, from) == carried(b, mid),
    decreases b.len(),
{
    if b.len() == 0 {
        assert(a + b =~= a);
    } else {
        lemma_carried_concat(a, b.drop_last(), from, mid);
        assert((a + b).drop_last() =~= a + b.drop_last());
        assert((a + b).last() == b.last());
    }
}

proof fn lemma_carried_idle(commands: Seq<Command>, from: TextureSlot)
    requires
        forall|i: int| 0 <= i < commands.len() ==> !((#[trigger] commands[i]) is Filter),
    ensures
        carried(commands, from) == Some(from),
    decreases commands.len(),
{
    if commands.len() > 0 {
        assert forall|i: int| 0 <= i < commands.len() - 1 implies !((#[trigger] commands.drop_last()[i]) is Filter) by {
            assert(!(commands[i] is Filter));
        }
        lemma_carried_idle(commands.drop_last(), from);
        assert(!(commands.last() is Filter));
    }
}

proof fn lemma_carried_down(target: FilterTarget, levels: int, source: TextureSlot, n: int)
    requires
        0 <= n <= levels <= 6,
    ensures
        carried(downsamples(target, levels, source).take(n), source) == Some(
            if n == 0 {
                source
            } else {
                TextureSlot::Level((n - 1) as usize)
            },
        ),
    decreases n,
{
    let all = downsamples(target, levels, source);
    if n > 0 {
        lemma_carried_down(target, levels, source, n - 1);
        assert(all.take(n).drop_last() =~= all.take(n - 1));
        assert(all.take(n).last() == all[n - 1]);
    } else {
        assert(all.take(0).len() == 0);
    }
}

proof fn lemma_carried_up(target: FilterTarget, levels: int, dest: TextureSlot, n: int)
    requires
        0 <= n <= levels <= 6,
        1 <= levels,
    ensures
        carried(upsamples(target, levels, dest).take(n), TextureSlot::Level((levels - 1) as usize)) == Some(
            if n == levels {
                dest
            } else {
                TextureSlot::Level((levels - 1 - n) as usize)
            },
        ),
    decreases n,
{
    let all = upsamples(target, levels, dest);
    if n > 0 {
        lemma_carried_up(target, levels, dest, n - 1);
        assert(all.take(n).drop_last() =~= all.take(n - 1));
        assert(all.take(n).last() == all[n - 1]);
    } else {
        assert(all.take(0).len() == 0);
    }
}

proof fn lemma_carried_two(a: Command, b: Command, from: TextureSlot)
    ensures
        carried(seq![a, b], from) == carried(seq![b], carried(seq![a], from)->0) || carried(seq![a], from) is None,
{
    if carried(seq![a], from) is Some {
        lemma_carried_concat(seq![a], seq![b], from, carried(seq![a], from)->0);
        assert(seq![a] + seq![b] =~= seq![a, b]);
    }
}

proof fn lemma_carried_one(a: Command, from: TextureSlot)
    ensures
        a matches Command::Filter { bindings: BindingList::Filter { sampled, dest, .. }, .. } && sampled == from ==> carried(
            seq![a],
            from,
        ) == written(a),
        !(a is Filter) ==> carried(seq![a], from) == Some(from),
{
    assert(seq![a].drop_last() =~= seq![]);
    assert(carried(seq![], from) == Some(from));
    assert(seq![a].last() == a);
}

proof fn lemma_pyramid_carries(
    target: FilterTarget,
    source: TextureSlot,
    dest: TextureSlot,
    std_dev: u32,
    edge: FilterEdgeMode,
    levels: int,
)
    requires
        1 <= levels <= 6,
    ensures
        carried(pyramid_commands(target, source, dest, std_dev, edge, levels), source) == Some(dest),
        pyramid_commands(target, source, dest, std_dev, edge, levels).len() == 4 * levels + 4,
{
    reveal(pyramid_commands);
    let bottom = TextureSlot::Level((levels - 1) as usize);
    let a = acquire_levels(target, levels);
    let d = downsamples(target, levels, source);
    let b = bottom_blur(target, levels, std_dev, edge);
    let u = upsamples(target, levels, dest);
    let r = release_levels(levels);
    lemma_carried_idle(a, source);
    lemma_carried_down(target, levels, source, levels);
    assert(d.take(levels) =~= d);
    lemma_carried_concat(a, d, source, source);
    lemma_carried_one(b[0], bottom);
    lemma_carried_two(b[1], b[2], bottom);
    lemma_carried_one(b[1], bottom);
    lemma_carried_one(b[2], TextureSlot::BottomScratch);
    lemma_carried_concat(seq![b[0]], seq![b[1], b[2]], bottom, bottom);
    assert(b =~= seq![b[0]] + seq![b[1], b[2]]);
    lemma_carried_concat(a + d, b, source, bottom);
    lemma_carried_up(target, levels, dest, levels);
    assert(u.take(levels) =~= u);
    lemma_carried_concat(a + d + b, u, source, bottom);
    lemma_carried_idle(r, dest);
    lemma_carried_concat(a + d + b + u, r, source, dest);
}

proof fn lemma_effect_carries(target: FilterTarget, effect: LayerFilterEffect, log: u32)
    ensures
        carried(effect_commands(target, effect, halvings(log)), origin(effect)) == Some(own_layer(effect)),
        effect_commands(target, effect, halvings(log)).len() == effect_size(effect, log),
{
    let levels = halvings(log);
    let all = effect_commands(target, effect, levels);
    let from = origin(effect);
    if is_wide(effect.primitive) {
        if let FilterPrimitive::DropShadow { dx, dy, std_dev, color, edge_mode } = effect.primitive {
            let blurred = TextureSlot::BlurResult;
            lemma_pyramid_carries(target, from, blurred, std_dev, edge_mode, levels);
            let head = seq![all[0]];
            let pyramid = pyramid_commands(target, from, blurred, std_dev, edge_mode, levels);
            let at = 1 + pyramid.len() as int;
            let tail = all.skip(at);
            assert(all =~= head + pyramid + tail);
            lemma_carried_one(all[0], from);
            lemma_carried_concat(head, pyramid, from, from);
            lemma_carried_concat(head + pyramid, tail, from, blurred);
            lemma_carried_one(tail[0], blurred);
            if effect.is_nested {
                lemma_carried_two(tail[0], tail[1], blurred);
                lemma_carried_one(tail[1], own_layer(effect));
                assert(tail =~= seq![tail[0], tail[1]]);
            } else {
                lemma_carried_two(tail[0], tail[1], blurred);
                lemma_carried_one(tail[1], TextureSlot::Scratch);
                lemma_carried_one(tail[2], own_layer(effect));
                lemma_carried_concat(seq![tail[0], tail[1]], seq![tail[2]], blurred, own_layer(effect));
                assert(tail =~= seq![tail[0], tail[1]] + seq![tail[2]]);
            }
        }
    } else {
        assert(all.len() == 2);
        lemma_carried_two(all[0], all[1], from);
        lemma_carried_one(all[0], from);
        lemma_carried_one(all[1], TextureSlot::Scratch);
        assert(all =~= seq![all[0], all[1]]);
    }
}

proof fn lemma_effects_size(target: FilterTarget, effects: Seq<LayerFilterEffect>, logs: Seq<u32>, n: int)
    requires
        0 <= n,
    ensures
        effects_commands(target, effects, logs, n).len() + 1 == effect_start(effects, logs, n),
        effect_start(effects, logs, n) >= 1,
    decreases n,
{
    if n > 0 {
        lemma_effects_size(target, effects, logs, n - 1);
        lemma_effect_carries(target, effects[n - 1], logs[n - 1]);
    }
}

/// The requests of one effect among those of the first `n`.
proof fn lemma_effect_place(target: FilterTarget, effects: Seq<LayerFilterEffect>, logs: Seq<u32>, i: int, n: int)
    requires
        0 <= i < n,
    ensures
        effects_commands(target, effects, logs, n).len() + 1 == effect_start(effects, logs, n),
        1 <= effect_start(effects, logs, i),
        effect_start(effects, logs, i + 1) <= effect_start(effects, logs, n),
        effect_start(effects, logs, i) + effect_size(effects[i], logs[i]) == effect_start(effects, logs, i + 1),
        effects_commands(target, effects, logs, n).subrange(
            effect_start(effects, logs, i) - 1,
            effect_start(effects, logs, i + 1) - 1,
        ) == effect_commands(target, effects[i], halvings(logs[i])),
    decreases n,
{
    lemma_effects_size(target, effects, logs, n);
    lemma_effects_size(target, effects, logs, n - 1);
    lemma_effects_size(target, effects, logs, i);
    lemma_effect_carries(target, effects[n - 1], logs[n - 1]);
    lemma_effect_carries(target, effects[i], logs[i]);
    let all = effects_commands(target, effects, logs, n);
    let before = effects_commands(target, effects, logs, n - 1);
    let last = effect_commands(target, effects[n - 1], halvings(logs[n - 1]));
    assert(all == before + last);
    let (from, to) = (effect_start(effects, logs, i) - 1, effect_start(effects, logs, i + 1) - 1);
    if i < n - 1 {
        lemma_effect_place(target, effects, logs, i, n - 1);
        assert(all.subrange(from, to) =~= before.subrange(from, to));
    } else {
        assert(all.subrange(from, to) =~= last);
    }
}

proof fn lemma_frame_place(target: FilterTarget, effects: Seq<LayerFilterEffect>, logs: Seq<u32>, i: int)
    requires
        0 <= i < effects.len(),
    ensures
        1 <= effect_start(effects, logs, i),
        effect_start(effects, logs, i) + effect_size(effects[i], logs[i]) == effect_start(effects, logs, i + 1),
        effect_start(effects, logs, i + 1) <= filter_commands(target, effects, logs).len(),
        filter_commands(target, effects, logs).subrange(
            effect_start(effects, logs, i),
            effect_start(effects, logs, i + 1),
        ) == effect_commands(target, effects[i], halvings(logs[i])),
{
    let n = effects.len() as int;
    lemma_effect_place(target, effects, logs, i, n);
    let all = filter_commands(target, effects, logs);
    let inner = effects_commands(target, effects, logs, n);
    let (from, to) = (effect_start(effects, logs, i), effect_start(effects, logs, i + 1));
    assert(all.subrange(from, to) =~= inner.subrange(from - 1, to - 1));
}

/// Each effect is applied with its own parameters. A blur blurs by its deviation, across and then
/// along. An offset shifts by its distance. A flood paints its color inside of its rectangle. A drop
/// shadow, narrow or wide, nested or not, is shifted by its distance and painted in its color; a
/// narrow one is blurred by its deviation in the same pass.
pub proof fn effects_keep_their_parameters(
    target: FilterTarget,
    effects: Seq<LayerFilterEffect>,
    logs: Seq<u32>,
    i: int,
)
    requires
        0 <= i < effects.len(),
        effects.len() == logs.len(),
    ensures
        effect_start(effects, logs, i + 1) == effect_start(effects, logs, i) + effect_size(effects[i], logs[i]),
        ({
            let all = filter_commands(target, effects, logs);
            let at = effect_start(effects, logs, i);
            match effects[i].primitive {
                FilterPrimitive::GaussianBlur { std_dev, edge_mode } => {
                    &&& is_kind(all[at], 0) && is_kind(all[at + 1], 1)
                    &&& blurs_by(all[at], std_dev, edge_mode)
                    &&& blurs_by(all[at + 1], std_dev, edge_mode)
                },
                FilterPrimitive::Offset { dx, dy } => {
                    &&& is_kind(all[at], 2) && is_kind(all[at + 1], 5)
                    &&& shifts_and_paints(all[at], dx, dy, 0)
                    &&& blurs_by(all[at], 0, FilterEdgeMode::Duplicate)
                },
                FilterPrimitive::Flood { color, clip_rect } => {
                    &&& is_kind(all[at], 3) && is_kind(all[at + 1], 5)
                    &&& all[at] matches Command::Filter { uniform, .. } && (
                        uniform.edge_mode,
                        uniform.std_dev,
                        uniform.dx,
                        uniform.dy,
                    ) == (clip_rect[0], clip_rect[1], clip_rect[2], clip_rect[3]) && uniform.color == color.packed()
                },
                FilterPrimitive::DropShadow { dx, dy, std_dev, color, edge_mode } => if is_wide(effects[i].primitive) {
                    let end = at + 4 * halvings(logs[i]) + 5;
                    &&& shifts_and_paints(all[end], dx, dy, color.packed())
                    &&& if effects[i].is_nested {
                        is_kind(all[end], 14)
                    } else {
                        is_kind(all[end], 13) && is_kind(all[end + 1], 5)
                    }
                } else {
                    &&& shifts_and_paints(all[at], dx, dy, color.packed())
                    &&& blurs_by(all[at], std_dev, edge_mode)
                    &&& is_kind(
                        all[at],
                        if effects[i].is_nested {
                            8
                        } else {
                            4
                        },
                    )
                    &&& is_kind(all[at + 1], 5)
                },
            }
        }),
{
    lemma_frame_place(target, effects, logs, i);
    let all = filter_commands(target, effects, logs);
    let (from, to) = (effect_start(effects, logs, i), effect_start(effects, logs, i + 1));
    let own = all.subrange(from, to);
    lemma_effect_carries(target, effects[i], logs[i]);
    assert(own[0] == all[from] && own[1] == all[from + 1]);
    if is_wide(effects[i].primitive) {
        if let FilterPrimitive::DropShadow { dx, dy, std_dev, color, edge_mode } = effects[i].primitive {
            let levels = halvings(logs[i]);
            lemma_pyramid_carries(target, origin(effects[i]), TextureSlot::BlurResult, std_dev, edge_mode, levels);
            let end = 4 * levels + 5;
            assert(own[end] == all[from + end]);
            if !effects[i].is_nested {
                assert(own[end + 1] == all[from + end + 1]);
            }
        }
    }
}

/// Each effect takes the image from its own layer, or from the layer inside of it for a nested
/// shadow, through one pass after the other, and ends up in its own layer.
pub proof fn effects_end_in_their_layers(
    target: FilterTarget,
    effects: Seq<LayerFilterEffect>,
    logs: Seq<u32>,
    i: int,
)
    requires
        0 <= i < effects.len(),
        effects.len() == logs.len(),
    ensures
        carried(
            filter_commands(target, effects, logs).subrange(
                effect_start(effects, logs, i),
                effect_start(effects, logs, i + 1),
            ),
            origin(effects[i]),
        ) == Some(own_layer(effects[i])),
{
    lemma_frame_place(target, effects, logs, i);
    lemma_effect_carries(target, effects[i], logs[i]);
}

/// The requests of an effect write no texture that outlives the frame but its own layer.
pub proof fn effects_leave_other_layers(
    target: FilterTarget,
    effects: Seq<LayerFilterEffect>,
    logs: Seq<u32>,
    i: int,
    k: int,
)
    requires
        0 <= i < effects.len(),
        effects.len() == logs.len(),
        effect_start(effects, logs, i) <= k < effect_start(effects, logs, i + 1),
    ensures
        written(filter_commands(target, effects, logs)[k]) matches Some(slot) ==> is_temporary(slot) || slot
            == own_layer(effects[i]),
{
    lemma_frame_place(target, effects, logs, i);
    let all = filter_commands(target, effects, logs);
    let from = effect_start(effects, logs, i);
    let own = all.subrange(from, effect_start(effects, logs, i + 1));
    assert(all[k] == own[k - from]);
    if is_wide(effects[i].primitive) {
        if let FilterPrimitive::DropShadow { dx, dy, std_dev, color, edge_mode } = effects[i].primitive {
            let levels = halvings(logs[i]);
            let p = pyramid_commands(
                target,
                origin(effects[i]),
                TextureSlot::BlurResult,
                std_dev,
                edge_mode,
                levels,
            );
            lemma_pyramid_carries(target, origin(effects[i]), TextureSlot::BlurResult, std_dev, edge_mode, levels);
            if 1 <= k - from < 1 + p.len() {
                assert(own[k - from] == p[k - from - 1]);
                reveal(pyramid_commands);
            }
        }
    }
}

/// A side of the image after `n` halvings, which never go below one pixel.
pub open spec fn halved(full: int, n: int) -> int
    decreases n,
{
    if n <= 0 {
        full
    } else if halved(full, n - 1) / 2 >= 1 {
        halved(full, n - 1) / 2
    } else {
        1
    }
}

/// Each level of the pyramid has half the sides of the level above it, rounded down, and at least one
/// pixel.
pub proof fn levels_are_halved(full: u32, n: int)
    requires
        1 <= n,
    ensures
        level_side(full, n) == halved(full as int, n),
    decreases n,
{
    let f = full as int;
    lemma_pow2_unfold(n as nat);
    vstd::arithmetic::power2::lemma_pow2_pos((n - 1) as nat);
    let p = pow2((n - 1) as nat) as int;
    vstd::arithmetic::div_mod::lemma_div_denominator(f, p, 2);
    assert(pow2(n as nat) == p * 2);
    vstd::arithmetic::div_mod::lemma_div_pos_is_pos(f, p);
    if n > 1 {
        levels_are_halved(full, n - 1);
    } else {
        vstd::arithmetic::power2::lemma2_to64();
        assert(halved(f, 0) == f);
        assert(f / 1 == f);
    }
    vstd::arithmetic::div_mod::lemma_div_is_ordered_by_denominator(f, 1, p * 2);
    assert(f / 1 == f);
}

/// The size of a texture while a pyramid of that many levels is in use.
pub open spec fn texture_size(target: FilterTarget, levels: int, slot: TextureSlot) -> (int, int) {
    let n = match slot {
        TextureSlot::Level(l) => l + 1,
        TextureSlot::BottomScratch => levels,
        _ => 0,
    };
    (halved(target.width as int, n), halved(target.height as int, n))
}

/// The workgroups of a pass cover its pixels, with less than one workgroup to spare on each side.
pub open spec fn groups_cover(groups: (u32, u32, u32), width: int, height: int) -> bool {
    &&& 16 * groups.0 - 16 < width <= 16 * groups.0
    &&& 16 * groups.1 - 16 < height <= 16 * groups.1
    &&& groups.2 == 1
}

/// The workgroups of a pass cover its pixels, with less than one workgroup to spare on each side.
pub proof fn passes_cover_their_pixels(width: u32, height: u32)
    ensures
        groups_cover(pixel_groups(width, height), width as int, height as int),
{
}

/// The request is made with the shader of the frame, for the size of the texture that it takes or
/// writes.
pub open spec fn sized_right(target: FilterTarget, levels: int, command: Command) -> bool {
    match command {
        Command::Acquire { slot, width, height, .. } => (width as int, height as int) == texture_size(
            target,
            levels,
            slot,
        ),
        Command::Filter { shader, uniform, groups, bindings: BindingList::Filter { dest, output, .. } } => {
            &&& shader == target.shader
            &&& output == target.output
            &&& (uniform.width as int, uniform.height as int) == texture_size(target, levels, dest)
            &&& groups_cover(groups, uniform.width as int, uniform.height as int)
        },
        Command::Release(_) => true,
        _ => false,
    }
}

/// Every pass of an effect covers the texture that it writes, and every texture that is taken has the
/// size of its level.
pub proof fn effects_cover_their_textures(
    target: FilterTarget,
    effects: Seq<LayerFilterEffect>,
    logs: Seq<u32>,
    i: int,
    k: int,
)
    requires
        0 <= i < effects.len(),
        effects.len() == logs.len(),
        effect_start(effects, logs, i) <= k < effect_start(effects, logs, i + 1),
    ensures
        sized_right(target, halvings(logs[i]), filter_commands(target, effects, logs)[k]),
{
    lemma_frame_place(target, effects, logs, i);
    let all = filter_commands(target, effects, logs);
    let from = effect_start(effects, logs, i);
    let own = all.subrange(from, effect_start(effects, logs, i + 1));
    assert(all[k] == own[k - from]);
    let levels = halvings(logs[i]);
    passes_cover_their_pixels(target.width, target.height);
    assert(halved(target.width as int, 0) == target.width && halved(target.height as int, 0) == target.height);
    if is_wide(effects[i].primitive) {
        if let FilterPrimitive::DropShadow { dx, dy, std_dev, color, edge_mode } = effects[i].primitive {
            let p = pyramid_commands(
                target,
                origin(effects[i]),
                TextureSlot::BlurResult,
                std_dev,
                edge_mode,
                levels,
            );
            lemma_pyramid_carries(target, origin(effects[i]), TextureSlot::BlurResult, std_dev, edge_mode, levels);
            if 1 <= k - from < 1 + p.len() {
                assert(own[k - from] == p[k - from - 1]);
                lemma_pyramid_sizes(
                    target,
                    origin(effects[i]),
                    TextureSlot::BlurResult,
                    std_dev,
                    edge_mode,
                    levels,
                    k - from - 1,
                );
            }
        }
    }
}

proof fn lemma_pyramid_sizes(
    target: FilterTarget,
    source: TextureSlot,
    dest: TextureSlot,
    std_dev: u32,
    edge: FilterEdgeMode,
    levels: int,
    k: int,
)
    requires
        1 <= levels <= 6,
        dest is BlurResult,
        0 <= k < 4 * levels + 4,
    ensures
        sized_right(target, levels, pyramid_commands(target, source, dest, std_dev, edge, levels)[k]),
{
    reveal(pyramid_commands);
    let a = acquire_levels(target, levels);
    let d = downsamples(target, levels, source);
    let b = bottom_blur(target, levels, std_dev, edge);
    let u = upsamples(target, levels, dest);
    let p = pyramid_commands(target, source, dest, std_dev, edge, levels);
    if k < levels {
        levels_are_halved(target.width, k + 1);
        levels_are_halved(target.height, k + 1);
        assert(p[k] == a[k]);
    } else if k < 2 * levels {
        let l = k - levels;
        levels_are_halved(target.width, l + 1);
        levels_are_halved(target.height, l + 1);
        passes_cover_their_pixels(level_side(target.width, l + 1), level_side(target.height, l + 1));
        assert(p[k] == d[l]);
    } else if k < 2 * levels + 3 {
        levels_are_halved(target.width, levels);
        levels_are_halved(target.height, levels);
        passes_cover_their_pixels(level_side(target.width, levels), level_side(target.height, levels));
        assert(p[k] == b[k - 2 * levels]);
    } else if k < 3 * levels + 3 {
        let l = levels - 1 - (k - 2 * levels - 3);
        assert(p[k] == u[k - 2 * levels - 3]);
        if l > 0 {
            levels_are_halved(target.width, l);
            levels_are_halved(target.height, l);
            passes_cover_their_pixels(level_side(target.width, l), level_side(target.height, l));
        } else {
            passes_cover_their_pixels(target.width, target.height);
            assert(halved(target.width as int, 0) == target.width && halved(target.height as int, 0) == target.height);
        }
    } else {
        assert(p[k] == release_levels(levels)[k - 3 * levels - 3]);
    }
}

/// Lowering a finite positive number divides it by two to the power `n`: the quotient times that power is
/// the number.
pub proof fn lowering_divides(bits: u32, n: u32)
    requires
        (n + 1) * 0x80_0000 <= bits < 0x7f80_0000,
    ensures
        is_finite(lowered(bits, n)),
        units(lowered(bits, n)) * pow2(n as nat) == units(bits),
{
    let low = lowered(bits, n);
    assert(bits & 0x7fff_ffff == bits) by (bit_vector)
        requires
            bits < 0x7f80_0000,
    ;
    assert(low & 0x7fff_ffff == low) by (bit_vector)
        requires
            low < 0x7f80_0000,
    ;
    let e = exponent(bits) as int;
    let f = (bits % 0x80_0000) as int;
    assert(bits == e * 0x80_0000 + f);
    assert(low == (e - n) * 0x80_0000 + f);
    assert(e >= n + 1);
    assert(exponent(low) == e - n && low % 0x80_0000 == f);
    assert(significand(low) == significand(bits));
    assert(scale(low) == e - n - 1 && scale(bits) == e - 1);
    lemma_pow2_adds((e - n - 1) as nat, n as nat);
    let (m, p, q) = (significand(bits), pow2((e - n - 1) as nat) as int, pow2(n as nat) as int);
    assert((m * p) * q == m * (p * q)) by (nonlinear_arith);
}

/// The request that a frame has at a place of the effect `i`.
pub open spec fn request(
    target: FilterTarget,
    effects: Seq<LayerFilterEffect>,
    logs: Seq<u32>,
    i: int,
    k: int,
) -> Command {
    filter_commands(target, effects, logs)[effect_start(effects, logs, i) + k]
}

/// A wide shadow takes a texture for the blurred image and one for each level. It halves the image
/// that often, blurs it across and along by what the halvings leave of the deviation, doubles it as
/// often as it was halved, and gives the textures back.
pub proof fn wide_shadows_are_blurred_small(
    target: FilterTarget,
    effects: Seq<LayerFilterEffect>,
    logs: Seq<u32>,
    i: int,
    std_dev: u32,
    edge: FilterEdgeMode,
    l: int,
)
    requires
        0 <= i < effects.len(),
        effects.len() == logs.len(),
        is_wide(effects[i].primitive),
        std_dev == effects[i].primitive->DropShadow_std_dev,
        edge == effects[i].primitive->DropShadow_edge_mode,
        0 <= l < halvings(logs[i]),
    ensures
        ({
            let n = halvings(logs[i]);
            &&& request(target, effects, logs, i, 0) matches Command::Acquire { slot, .. } && slot is BlurResult
            &&& request(target, effects, logs, i, 1 + l) matches Command::Acquire { slot, .. } && slot
                == TextureSlot::Level(l as usize)
            &&& is_kind(request(target, effects, logs, i, 1 + n + l), 9)
            &&& request(target, effects, logs, i, 1 + 2 * n) matches Command::Acquire { slot, .. }
                && slot is BottomScratch
            &&& is_kind(request(target, effects, logs, i, 2 + 2 * n), 0)
            &&& is_kind(request(target, effects, logs, i, 3 + 2 * n), 1)
            &&& is_kind(request(target, effects, logs, i, 4 + 2 * n + l), 11)
            &&& request(target, effects, logs, i, 4 + 3 * n + l) == Command::Release(TextureSlot::Level(l as usize))
            &&& request(target, effects, logs, i, 4 + 4 * n) == Command::Release(TextureSlot::BottomScratch)
            &&& exists|left: u32|
                {
                    &&& #[trigger] blurs_by(request(target, effects, logs, i, 2 + 2 * n), left, edge)
                    &&& blurs_by(request(target, effects, logs, i, 3 + 2 * n), left, edge)
                    &&& is_left_of(std_dev, n, left)
                }
            &&& effect_start(effects, logs, i + 1) == effect_start(effects, logs, i) + 4 * n + (if effects[i].is_nested {
                7int
            } else {
                8int
            })
            &&& request(target, effects, logs, i + 1, -1) == Command::Release(TextureSlot::BlurResult)
        }),
{
    lemma_frame_place(target, effects, logs, i);
    let all = filter_commands(target, effects, logs);
    let from = effect_start(effects, logs, i);
    let to = effect_start(effects, logs, i + 1);
    let own = all.subrange(from, to);
    let n = halvings(logs[i]);
    let source = origin(effects[i]);
    let p = pyramid_commands(target, source, TextureSlot::BlurResult, std_dev, edge, n);
    lemma_pyramid_carries(target, source, TextureSlot::BlurResult, std_dev, edge, n);
    lemma_pyramid_kinds(target, source, TextureSlot::BlurResult, std_dev, edge, n, l);
    assert forall|k: int| 0 <= k < to - from implies request(target, effects, logs, i, k) == #[trigger] own[k] by {}
    assert forall|k: int| 1 <= k < 1 + p.len() implies (#[trigger] own[k]) == p[k - 1] by {}
    assert(own[0] == request(target, effects, logs, i, 0));
    assert(own[1 + l] == p[l]);
    assert(own[1 + n + l] == p[n + l]);
    assert(own[1 + 2 * n] == p[2 * n]);
    assert(own[2 + 2 * n] == p[2 * n + 1]);
    assert(own[3 + 2 * n] == p[2 * n + 2]);
    assert(own[4 + 2 * n + l] == p[2 * n + 3 + l]);
    assert(own[4 + 3 * n + l] == p[3 * n + 3 + l]);
    assert(own[4 + 4 * n] == p[4 * n + 3]);
    assert(own[to - from - 1] == all[to - 1]);
}

/// The deviation after `n` halvings of the image.
pub open spec fn is_left_of(std_dev: u32, n: int, left: u32) -> bool {
    if std_dev == 0x7f80_0000 {
        left == std_dev
    } else {
        is_finite(left) && units(left) * pow2(n as nat) == units(std_dev)
    }
}

proof fn lemma_pyramid_kinds(
    target: FilterTarget,
    source: TextureSlot,
    dest: TextureSlot,
    std_dev: u32,
    edge: FilterEdgeMode,
    n: int,
    l: int,
)
    requires
        0 <= l < n <= 6,
        greater(std_dev, 0x4180_0000),
    ensures
        ({
            let p = pyramid_commands(target, source, dest, std_dev, edge, n);
            &&& p[l] matches Command::Acquire { slot, .. } && slot == TextureSlot::Level(l as usize)
            &&& is_kind(p[n + l], 9)
            &&& p[2 * n] matches Command::Acquire { slot, .. } && slot is BottomScratch
            &&& is_kind(p[2 * n + 1], 0)
            &&& is_kind(p[2 * n + 2], 1)
            &&& is_kind(p[2 * n + 3 + l], 11)
            &&& p[3 * n + 3 + l] == Command::Release(TextureSlot::Level(l as usize))
            &&& p[4 * n + 3] == Command::Release(TextureSlot::BottomScratch)
            &&& exists|left: u32|
                {
                    &&& #[trigger] blurs_by(p[2 * n + 1], left, edge)
                    &&& blurs_by(p[2 * n + 2], left, edge)
                    &&& is_left_of(std_dev, n, left)
                }
        }),
{
    reveal(pyramid_commands);
    let p = pyramid_commands(target, source, dest, std_dev, edge, n);
    let a = acquire_levels(target, n);
    let d = downsamples(target, n, source);
    let b = bottom_blur(target, n, std_dev, edge);
    let u = upsamples(target, n, dest);
    let r = release_levels(n);
    assert(p[l] == a[l]);
    assert(p[n + l] == d[l]);
    assert(p[2 * n] == b[0]);
    assert(p[2 * n + 1] == b[1]);
    assert(p[2 * n + 2] == b[2]);
    assert(p[2 * n + 3 + l] == u[l]);
    assert(p[3 * n + 3 + l] == r[l]);
    assert(p[4 * n + 3] == r[n]);
    let left = lowered(std_dev, n as u32);
    assert(std_dev < 0x8000_0000 ==> std_dev & 0x7fff_ffff == std_dev) by (bit_vector);
    assert(0x4180_0000u32 & 0x7fff_ffff == 0x4180_0000) by (bit_vector);
    if std_dev != 0x7f80_0000 {
        lowering_divides(std_dev, n as u32);
    }
    assert(blurs_by(p[2 * n + 1], left, edge));
    assert(blurs_by(p[2 * n + 2], left, edge));
}

/// A pass reads the texture that it samples, with one exception: the pass that paints a wide shadow
/// samples the blurred image and reads the foreground where the effect started from.
pub proof fn passes_read_what_they_sample(
    target: FilterTarget,
    effects: Seq<LayerFilterEffect>,
    logs: Seq<u32>,
    i: int,
    k: int,
)
    requires
        0 <= i < effects.len(),
        effects.len() == logs.len(),
        effect_start(effects, logs, i) <= k < effect_start(effects, logs, i + 1),
    ensures
        filter_commands(target, effects, logs)[k] matches Command::Filter {
            bindings: BindingList::Filter { sampled, source, .. },
            ..
        } ==> if sampled is BlurResult {
            source == origin(effects[i])
        } else {
            source == sampled
        },
{
    lemma_frame_place(target, effects, logs, i);
    let all = filter_commands(target, effects, logs);
    let from = effect_start(effects, logs, i);
    let own = all.subrange(from, effect_start(effects, logs, i + 1));
    assert(all[k] == own[k - from]);
    if is_wide(effects[i].primitive) {
        if let FilterPrimitive::DropShadow { dx, dy, std_dev, color, edge_mode } = effects[i].primitive {
            let levels = halvings(logs[i]);
            let p = pyramid_commands(
                target,
                origin(effects[i]),
                TextureSlot::BlurResult,
                std_dev,
                edge_mode,
                levels,
            );
            lemma_pyramid_carries(target, origin(effects[i]), TextureSlot::BlurResult, std_dev, edge_mode, levels);
            if 1 <= k - from < 1 + p.len() {
                assert(own[k - from] == p[k - from - 1]);
                reveal(pyramid_commands);
            }
        }
    }
}

/// The request composites the layer of an effect with the output, with the blend of the layer.
pub open spec fn composites_layer(target: FilterTarget, effect: LayerFilterEffect, command: Command) -> bool {
    command matches Command::Filter { shader, uniform, groups, bindings } && {
        &&& shader == target.shader
        &&& uniform.pass_kind == 6
        &&& uniform.edge_mode == effect.layer_blend
        &&& uniform.width == target.width
        &&& uniform.height == target.height
        &&& groups_cover(groups, target.width as int, target.height as int)
        &&& bindings == (BindingList::Filter {
            sampled: own_layer(effect),
            source: own_layer(effect),
            dest: TextureSlot::Output,
            output: target.output,
        })
    }
}

proof fn lemma_composites_size(target: FilterTarget, effects: Seq<LayerFilterEffect>, n: int)
    requires
        0 <= n <= effects.len(),
    ensures
        composites(target, effects, true, n).len() == nested_among(effects, n),
        composites(target, effects, false, n).len() == n - nested_among(effects, n),
    decreases n,
{
    if n > 0 {
        lemma_composites_size(target, effects, n - 1);
    }
}

proof fn lemma_composites(target: FilterTarget, effects: Seq<LayerFilterEffect>, n: int, i: int)
    requires
        0 <= i < n <= effects.len(),
    ensures
        ({
            let list = composites(target, effects, effects[i].is_nested, n);
            let k = if effects[i].is_nested {
                nested_among(effects, i)
            } else {
                i - nested_among(effects, i)
            };
            0 <= k < list.len() && composites_layer(target, effects[i], list[k])
        }),
    decreases n,
{
    lemma_composites_size(target, effects, n - 1);
    if i < n - 1 {
        lemma_composites(target, effects, n - 1, i);
    } else {
        passes_cover_their_pixels(target.width, target.height);
    }
}

/// Once all effects have been applied, every layer is composited with the output once, with its own
/// blend: the nested ones first, both kinds in order. The scratch texture is taken before all that, at
/// the full size, and given back after it, and nothing else happens in the frame.
pub proof fn layers_are_composited_in_order(
    target: FilterTarget,
    effects: Seq<LayerFilterEffect>,
    logs: Seq<u32>,
    i: int,
)
    requires
        0 <= i < effects.len(),
        effects.len() == logs.len(),
    ensures
        ({
            let n = effects.len() as int;
            let all = filter_commands(target, effects, logs);
            let base = effect_start(effects, logs, n);
            &&& all.len() == base + n + 1
            &&& composites_layer(
                target,
                effects[i],
                all[if effects[i].is_nested {
                    base + nested_among(effects, i)
                } else {
                    base + nested_among(effects, n) + (i - nested_among(effects, i))
                }],
            )
            &&& all[0] matches Command::Acquire { slot, width, height, copies } && slot is Scratch && width
                == target.width && height == target.height && copies
            &&& all.last() == Command::Release(TextureSlot::Scratch)
        }),
{
    let n = effects.len() as int;
    lemma_composites_size(target, effects, n);
    lemma_composites(target, effects, n, i);
    lemma_effects_size(target, effects, logs, n);
    let all = filter_commands(target, effects, logs);
    let e = effects_commands(target, effects, logs, n);
    let inner = composites(target, effects, true, n);
    let outer = composites(target, effects, false, n);
    let base = effect_start(effects, logs, n);
    assert(effects[i].is_nested || !effects[i].is_nested);
    if effects[i].is_nested {
        let k = nested_among(effects, i);
        assert(all[base + k] == inner[k]);
    } else {
        let k = i - nested_among(effects, i);
        assert(all[base + inner.len() + k] == outer[k]);
    }
}

/// A frame with effects starts from four clear layers: each is cleared once, over all of its pixels.
/// Without effects, pixels or the filter shader nothing is cleared.
pub proof fn layers_start_clear(
    any_effect: bool,
    shader: Option<ShaderId>,
    width: u32,
    height: u32,
    output: OutputKind,
    source: TextureSlot,
    l: int,
)
    ensures
        clear_commands(any_effect, shader, width, height, output, source).len() == (if any_effect && shader is Some
            && width > 0 && height > 0 {
            4nat
        } else {
            0
        }),
        any_effect && shader is Some && width > 0 && height > 0 && 0 <= l < 4 ==> {
            let c = clear_commands(any_effect, shader, width, height, output, source)[l];
            &&& is_kind(c, 7)
            &&& written(c) == Some(TextureSlot::FilterLayer(l as usize))
            &&& c matches Command::Filter { shader: s, uniform, groups, .. } && Some(s) == shader && uniform.width
                == width && uniform.height == height && groups_cover(groups, width as int, height as int)
        },
{
    passes_cover_their_pixels(width, height);
}

} // verus!
