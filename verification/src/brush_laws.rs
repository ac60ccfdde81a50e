//! What encoding brushes, clips and layers amounts to, in terms of what went in and what the streams hold
//! afterwards.

use crate::color::{little_endian, rounded_byte, scaled_alpha, times_alpha, Color, PremulColor};
use crate::draw::{BlendMode, DrawBeginClip, DrawBlurRoundedRect};
use crate::encoding::{Brush, ColorStop, Encoding, Gradient, GradientKind, Patch, RampStops};
use crate::float::{equal, same_number};
use crate::image::{packed_sampling, packed_size, Extend, ImageData, ImageQuality, ImageSampler};
use crate::path::Style;
use vstd::prelude::*;

verus! {

/// An alpha is multiplied by a factor, and kept as it is where the factor is one.
pub open spec fn alpha_multiplied(alpha: u32, factor: u32, product: u32) -> bool {
    if factor == 0x3f80_0000 {
        product == alpha
    } else {
        same_number(product, scaled_alpha(alpha, factor))
    }
}

/// The gradient has no extent: its two circles are one, or its two angles are.
pub open spec fn is_degenerate(kind: GradientKind) -> bool {
    match kind {
        GradientKind::Linear { .. } => false,
        GradientKind::Radial { start_center, end_center, radii_match, .. } => radii_match && equal(
            start_center[0],
            end_center[0],
        ) && equal(start_center[1], end_center[1]),
        GradientKind::Sweep { angles_match, .. } => angles_match,
    }
}

/// The stop has the place and the color of another one, with its alpha multiplied by a factor. An alpha
/// that is missing stays so.
pub open spec fn fades(stop: ColorStop, factor: u32, faded: ColorStop) -> bool {
    &&& faded.offset == stop.offset
    &&& faded.color.cs == stop.color.cs
    &&& faded.color.missing == stop.color.missing
    &&& faded.color.components[0] == stop.color.components[0]
    &&& faded.color.components[1] == stop.color.components[1]
    &&& faded.color.components[2] == stop.color.components[2]
    &&& if stop.color.missing[3] {
        faded.color.components[3] == stop.color.components[3]
    } else {
        alpha_multiplied(stop.color.components[3], factor, faded.color.components[3])
    }
}

/// The number of the draw tag of a gradient, and the words that describe its position.
pub open spec fn shape_of(kind: GradientKind) -> (u32, Seq<u32>) {
    match kind {
        GradientKind::Linear { start, end } => (0x114, seq![start[0], start[1], end[0], end[1]]),
        GradientKind::Radial { start_center, start_radius, end_center, end_radius, .. } => (
            0x29c,
            seq![start_center[0], start_center[1], end_center[0], end_center[1], start_radius, end_radius],
        ),
        GradientKind::Sweep { center, start_turn, end_turn, .. } => (
            0x254,
            seq![center[0], center[1], start_turn, end_turn],
        ),
    }
}

/// What a brush leaves alone: paths, transforms, styles, clips, filters and glyphs.
pub open spec fn only_draws(was: Encoding, next: Encoding) -> bool {
    &&& next.path_tags == was.path_tags
    &&& next.path_data == was.path_data
    &&& next.transforms == was.transforms
    &&& next.styles == was.styles
    &&& next.resources.glyphs == was.resources.glyphs
    &&& next.resources.glyph_runs == was.resources.glyph_runs
    &&& next.resources.normalized_coords == was.resources.normalized_coords
    &&& next.n_paths == was.n_paths
    &&& next.n_path_segments == was.n_path_segments
    &&& next.n_clips == was.n_clips
    &&& next.n_open_clips == was.n_open_clips
    &&& next.flags == was.flags
    &&& next.begin_clip_stack == was.begin_clip_stack
    &&& next.clip_filter_stack == was.clip_filter_stack
    &&& next.layer_filter_effects == was.layer_filter_effects
    &&& next.pending_layer_filter == was.pending_layer_filter
    &&& next.coverage_mask == was.coverage_mask
}

/// The stream has grown by one object: a tag, and `n` words of draw data behind those that were there.
pub open spec fn one_object(was: Encoding, next: Encoding, tag: u32, n: int) -> bool {
    &&& next.draw_tags@.len() == was.draw_tags@.len() + 1
    &&& next.draw_tags@.take(was.draw_tags@.len() as int) == was.draw_tags@
    &&& next.draw_tags@.last().0 == tag
    &&& next.draw_data@.len() == was.draw_data@.len() + n
    &&& next.draw_data@.take(was.draw_data@.len() as int) == was.draw_data@
}

proof fn lemma_object(was: Encoding, next: Encoding, tag: u32, words: Seq<u32>)
    requires
        was.object_encoded(next, tag, words),
    ensures
        one_object(was, next, tag, words.len() as int),
        next.draw_data@.skip(was.draw_data@.len() as int) == words,
        only_draws(was, next),
        next.resources == was.resources,
{
    assert(next.draw_tags@.take(was.draw_tags@.len() as int) =~= was.draw_tags@);
    assert(next.draw_data@.take(was.draw_data@.len() as int) =~= was.draw_data@);
    assert(next.draw_data@.skip(was.draw_data@.len() as int) =~= words);
}

/// A gradient with two or more stops and an extent is drawn with the alpha of the brush, whatever its kind:
/// every stop is stored once, in order, at its offset and in its color, with its alpha multiplied by that
/// of the brush.
pub proof fn gradients_carry_the_alpha(was: Encoding, next: Encoding, gradient: Gradient, alpha: u32, i: int)
    requires
        was.brush_encoded(next, Brush::Gradient(gradient), alpha),
        !is_degenerate(gradient.kind),
        gradient.stops@.len() >= 2,
        0 <= i < gradient.stops@.len(),
    ensures
        next.resources.color_stops@.len() == was.resources.color_stops@.len() + gradient.stops@.len(),
        next.resources.color_stops@.take(was.resources.color_stops@.len() as int) == was.resources.color_stops@,
        fades(gradient.stops@[i], alpha, next.resources.color_stops@[was.resources.color_stops@.len() + i]),
{
    let (tag, words) = gradient_words(gradient.kind);
    lemma_gradient(was, next, gradient, alpha);
    let between = choose|between: Encoding| #[trigger]
        was.ramp_added(between, gradient.stops@, alpha, gradient.extend, RampStops::Many) && between.object_encoded(
            next,
            tag,
            words,
        );
    lemma_object(between, next, tag, words);
    let all = next.resources.color_stops@;
    assert(crate::encoding::stop_scaled(gradient.stops@[i], alpha, all[was.resources.color_stops@.len() + i]));
}

/// The tag and the words of a gradient, with an open word for its ramp in front.
spec fn gradient_words(kind: GradientKind) -> (u32, Seq<u32>) {
    (shape_of(kind).0, seq![0u32] + shape_of(kind).1)
}

proof fn lemma_gradient(was: Encoding, next: Encoding, gradient: Gradient, alpha: u32)
    requires
        was.brush_encoded(next, Brush::Gradient(gradient), alpha),
        !is_degenerate(gradient.kind),
    ensures
        was.gradient_encoded(
            next,
            gradient_words(gradient.kind).0,
            gradient_words(gradient.kind).1,
            gradient.stops@,
            alpha,
            gradient.extend,
        ),
        gradient.stops@.len() >= 2 ==> exists|between: Encoding| #[trigger]
            was.ramp_added(between, gradient.stops@, alpha, gradient.extend, RampStops::Many)
                && between.object_encoded(next, gradient_words(gradient.kind).0, gradient_words(gradient.kind).1),
{
    let (tag, words) = gradient_words(gradient.kind);
    match gradient.kind {
        GradientKind::Linear { start, end } => {
            assert(words =~= seq![0u32, start[0], start[1], end[0], end[1]]);
        },
        GradientKind::Radial { start_center: a, start_radius, end_center: b, end_radius, .. } => {
            assert(words =~= seq![0u32, a[0], a[1], b[0], b[1], start_radius, end_radius]);
        },
        GradientKind::Sweep { center, start_turn, end_turn, .. } => {
            assert(words =~= seq![0u32, center[0], center[1], start_turn, end_turn]);
        },
    }
    if gradient.stops@.len() >= 2 {
        let (between, ramp) = choose|between: Encoding, ramp: RampStops|
            {
                &&& #[trigger] was.ramp_added(between, gradient.stops@, alpha, gradient.extend, ramp)
                &&& match ramp {
                    RampStops::Empty => between.object_encoded(next, 0x44, seq![0u32]),
                    RampStops::One(color) => exists|rgba: u32|
                        #[trigger] color.packs_into(rgba) && between.object_encoded(next, 0x44, seq![rgba]),
                    RampStops::Many => between.object_encoded(next, tag, words),
                }
            };
        assert(ramp == RampStops::Many);
        assert(was.ramp_added(between, gradient.stops@, alpha, gradient.extend, RampStops::Many));
    }
}

/// A gradient with two or more stops and an extent is drawn where the brush says: its tag tells its kind,
/// its words are the points, radii or angles of the brush behind an open word, and the last patch fills
/// that word with the ramp of the stops, with the extend mode of the brush.
pub proof fn gradients_keep_their_shape(was: Encoding, next: Encoding, gradient: Gradient, alpha: u32)
    requires
        was.brush_encoded(next, Brush::Gradient(gradient), alpha),
        !is_degenerate(gradient.kind),
        gradient.stops@.len() >= 2,
    ensures
        ({
            let (tag, position) = shape_of(gradient.kind);
            let n = was.draw_data@.len() as int;
            &&& one_object(was, next, tag, 1 + position.len() as int)
            &&& next.draw_data@.skip(n + 1) == position
            &&& next.resources.patches@.len() == was.resources.patches@.len() + 1
            &&& next.resources.patches@.take(was.resources.patches@.len() as int) == was.resources.patches@
            &&& next.resources.patches@.last() matches Patch::Ramp { draw_data_offset, stops, extend } && {
                &&& draw_data_offset == n
                &&& extend == gradient.extend
                &&& stops.start == was.resources.color_stops@.len()
                &&& stops.end == next.resources.color_stops@.len()
            }
            &&& only_draws(was, next)
        }),
{
    let (tag, words) = gradient_words(gradient.kind);
    lemma_gradient(was, next, gradient, alpha);
    let between = choose|between: Encoding| #[trigger]
        was.ramp_added(between, gradient.stops@, alpha, gradient.extend, RampStops::Many) && between.object_encoded(
            next,
            tag,
            words,
        );
    lemma_object(between, next, tag, words);
    let n = was.draw_data@.len() as int;
    assert(next.draw_data@.skip(n + 1) =~= shape_of(gradient.kind).1);
    assert(was.draw_data.len() == n);
    assert(was.resources.color_stops.len() == was.resources.color_stops@.len());
    assert(next.resources.color_stops.len() == next.resources.color_stops@.len());
    assert(next.resources.patches@.take(was.resources.patches@.len() as int) =~= was.resources.patches@);
}

/// A gradient without extent or without stops draws nothing: it is encoded as the transparent color. With
/// one stop it is the color of the stop, with its alpha multiplied by that of the brush. Neither leaves
/// stops or a patch behind.
pub proof fn small_gradients_are_one_color(was: Encoding, next: Encoding, gradient: Gradient, alpha: u32)
    requires
        was.brush_encoded(next, Brush::Gradient(gradient), alpha),
        is_degenerate(gradient.kind) || gradient.stops@.len() <= 1,
    ensures
        one_object(was, next, 0x44, 1),
        next.resources.color_stops@ == was.resources.color_stops@,
        next.resources.patches@ == was.resources.patches@,
        only_draws(was, next),
        is_degenerate(gradient.kind) || gradient.stops@.len() == 0 ==> next.draw_data@.last() == 0,
        !is_degenerate(gradient.kind) && gradient.stops@.len() == 1 ==> exists|one: ColorStop| #[trigger]
            fades(gradient.stops@[0], alpha, one) && one.color.packs_into(next.draw_data@.last()),
{
    if is_degenerate(gradient.kind) {
        lemma_object(was, next, 0x44, seq![0u32]);
        assert(next.draw_data@.last() == next.draw_data@.skip(was.draw_data@.len() as int)[0]);
    } else {
        lemma_gradient(was, next, gradient, alpha);
        let (tag, words) = gradient_words(gradient.kind);
        let (between, ramp) = choose|between: Encoding, ramp: RampStops|
            {
                &&& #[trigger] was.ramp_added(between, gradient.stops@, alpha, gradient.extend, ramp)
                &&& match ramp {
                    RampStops::Empty => between.object_encoded(next, 0x44, seq![0u32]),
                    RampStops::One(color) => exists|rgba: u32|
                        #[trigger] color.packs_into(rgba) && between.object_encoded(next, 0x44, seq![rgba]),
                    RampStops::Many => between.object_encoded(next, tag, words),
                }
            };
        match ramp {
            RampStops::Empty => {
                lemma_object(between, next, 0x44, seq![0u32]);
                assert(next.draw_data@.last() == next.draw_data@.skip(was.draw_data@.len() as int)[0]);
            },
            RampStops::One(color) => {
                let rgba = choose|rgba: u32| #[trigger]
                    color.packs_into(rgba) && between.object_encoded(next, 0x44, seq![rgba]);
                lemma_object(between, next, 0x44, seq![rgba]);
                assert(next.draw_data@.last() == next.draw_data@.skip(was.draw_data@.len() as int)[0]);
                let one = ColorStop { offset: gradient.stops@[0].offset, color };
                assert(fades(gradient.stops@[0], alpha, one));
            },
            RampStops::Many => {},
        }
    }
}

/// A solid brush is drawn in its color, with its alpha multiplied by that of the brush, as one packed word.
pub proof fn solid_brushes_carry_the_alpha(was: Encoding, next: Encoding, color: Color, alpha: u32)
    requires
        was.brush_encoded(next, Brush::Solid(color), alpha),
    ensures
        one_object(was, next, 0x44, 1),
        only_draws(was, next),
        next.resources == was.resources,
        exists|faded: Color|
            {
                &&& faded.components[0] == color.components[0]
                &&& faded.components[1] == color.components[1]
                &&& faded.components[2] == color.components[2]
                &&& alpha_multiplied(color.components[3], alpha, faded.components[3])
                &&& next.draw_data@.last() == #[trigger] faded.packed()
            },
{
    let scaled = choose|scaled: Color| #[trigger]
        crate::encoding::color_scaled(color, alpha, scaled) && was.object_encoded(next, 0x44, seq![scaled.packed()]);
    lemma_object(was, next, 0x44, seq![scaled.packed()]);
    assert(next.draw_data@.last() == next.draw_data@.skip(was.draw_data@.len() as int)[0]);
}

/// The number of an extend mode, as shaders read it.
pub open spec fn extend_number(extend: Extend) -> int {
    if extend is Pad {
        0
    } else if extend is Repeat {
        1
    } else {
        2
    }
}

/// The number of a sampling quality, as shaders read it.
pub open spec fn quality_number(quality: ImageQuality) -> int {
    if quality is Low {
        0
    } else if quality is Medium {
        1
    } else {
        2
    }
}

/// The size and the sampling of an image can be read back from the two words that they are packed into.
pub proof fn packed_images_are_read_back(image: ImageData, sampler: ImageSampler)
    ensures
        ({
            let size = packed_size(image.width, image.height) as int;
            &&& size / 0x1_0000 == image.width % 0x1_0000
            &&& size % 0x1_0000 == image.height % 0x1_0000
        }),
        ({
            let word = packed_sampling(image, sampler) as int;
            &&& word % 0x100 == sampler.alpha
            &&& word / 0x100 % 4 == extend_number(sampler.y_extend)
            &&& word / 0x400 % 4 == extend_number(sampler.x_extend)
            &&& word / 0x1000 % 4 == quality_number(sampler.quality)
            &&& word / 0x4000 % 2 == (if image.alpha_type is Alpha {
                0int
            } else {
                1int
            })
            &&& word / 0x8000 == (if image.format is Rgba8 {
                0int
            } else {
                1int
            })
        }),
{
    let word = packed_sampling(image, sampler) as int;
    let (x, y) = (extend_number(sampler.x_extend), extend_number(sampler.y_extend));
    let q = quality_number(sampler.quality);
    let t: int = if image.alpha_type is Alpha {
        0
    } else {
        1
    };
    let f: int = if image.format is Rgba8 {
        0
    } else {
        1
    };
    assert(image.format.number() == f && image.alpha_type.number() == t && sampler.quality.number() == q);
    assert(sampler.x_extend.number() == x && sampler.y_extend.number() == y);
    let above_y = f * 0x80 + t * 0x40 + q * 0x10 + x * 4 + y;
    let above_x = f * 0x20 + t * 0x10 + q * 4 + x;
    let above_q = f * 8 + t * 4 + q;
    let above_t = f * 2 + t;
    assert(word == above_y * 0x100 + sampler.alpha);
    assert(word / 0x100 == above_y);
    assert(word / 0x400 == above_x);
    assert(word / 0x1000 == above_q);
    assert(word / 0x4000 == above_t);
}

/// An image brush names its image in a patch for its first word, where its place in the atlas will be, and
/// stores its size and sampling behind that.
pub proof fn image_brushes_name_their_image(
    was: Encoding,
    next: Encoding,
    image: ImageData,
    sampler: ImageSampler,
    alpha: u32,
)
    requires
        was.brush_encoded(next, Brush::Image { image, sampler }, alpha),
    ensures
        one_object(was, next, 0x28c, 3),
        next.draw_data@[was.draw_data@.len() + 1int] == packed_size(image.width, image.height),
        next.draw_data@[was.draw_data@.len() + 2int] == packed_sampling(image, sampler),
        next.resources.patches@.len() == was.resources.patches@.len() + 1,
        next.resources.patches@.take(was.resources.patches@.len() as int) == was.resources.patches@,
        next.resources.patches@.last() matches Patch::Image { image: named, draw_data_offset } && named == image
            && draw_data_offset == was.draw_data@.len(),
        next.resources.color_stops == was.resources.color_stops,
        only_draws(was, next),
{
    assert(was.draw_data.len() == was.draw_data@.len());
    assert(next.draw_tags@.take(was.draw_tags@.len() as int) =~= was.draw_tags@);
    assert(next.draw_data@.take(was.draw_data@.len() as int) =~= was.draw_data@);
    assert(next.resources.patches@.take(was.resources.patches@.len() as int) =~= was.resources.patches@);
}

/// The words of a blurred rectangle are its color, its sides, its radius and its deviation.
pub proof fn blurred_rectangles_keep_their_sides(rect: DrawBlurRoundedRect)
    ensures
        rect.words().len() == 5,
        rect.words()[0] == rect.color.rgba,
        rect.words()[1] == rect.width,
        rect.words()[2] == rect.height,
        rect.words()[3] == rect.radius,
        rect.words()[4] == rect.std_dev,
{
}

/// The four bytes of a packed color can be read back: red, green, blue and alpha, from the lowest byte up.
pub proof fn packed_bytes_are_read_back(bytes: Seq<u8>)
    requires
        bytes.len() == 4,
    ensures
        little_endian(bytes) as int % 0x100 == bytes[0],
        little_endian(bytes) as int / 0x100 % 0x100 == bytes[1],
        little_endian(bytes) as int / 0x1_0000 % 0x100 == bytes[2],
        little_endian(bytes) as int / 0x100_0000 == bytes[3],
{
}

/// A packed color holds its channels in the order red, green, blue and alpha, from the lowest byte up, each
/// rounded to a byte after it has been multiplied by alpha. A premultiplied color is rounded as it is.
pub proof fn packed_colors_hold_their_channels(color: Color, premul: PremulColor)
    ensures
        color.packed() as int % 0x100 == rounded_byte(times_alpha(color.components[0], color.components[3])),
        color.packed() as int / 0x100 % 0x100 == rounded_byte(times_alpha(color.components[1], color.components[3])),
        color.packed() as int / 0x1_0000 % 0x100 == rounded_byte(
            times_alpha(color.components[2], color.components[3]),
        ),
        color.packed() as int / 0x100_0000 == rounded_byte(color.components[3]),
        premul.packed() as int % 0x100 == rounded_byte(premul.components[0]),
        premul.packed() as int / 0x100 % 0x100 == rounded_byte(premul.components[1]),
        premul.packed() as int / 0x1_0000 % 0x100 == rounded_byte(premul.components[2]),
        premul.packed() as int / 0x100_0000 == rounded_byte(premul.components[3]),
{
    let alpha = color.components[3];
    packed_bytes_are_read_back(
        seq![
            rounded_byte(times_alpha(color.components[0], alpha)),
            rounded_byte(times_alpha(color.components[1], alpha)),
            rounded_byte(times_alpha(color.components[2], alpha)),
            rounded_byte(alpha),
        ],
    );
    packed_bytes_are_read_back(
        seq![
            rounded_byte(premul.components[0]),
            rounded_byte(premul.components[1]),
            rounded_byte(premul.components[2]),
            rounded_byte(premul.components[3]),
        ],
    );
}

/// A packed blend mode holds the mixing function above the composition function.
pub proof fn packed_blends_are_read_back(mode: BlendMode)
    ensures
        mode.packed() / 0x100 == mode.mix,
        mode.packed() % 0x100 == mode.compose,
{
}

/// A clip that begins is drawn with its blend mode and alpha, with a word behind them for the index of its
/// filter; it is remembered with that word, and with the filter that was pending, which is used up.
pub proof fn beginning_clips_are_remembered(was: Encoding, next: Encoding, parameters: DrawBeginClip)
    requires
        was.clip_begun(next, parameters),
        was.n_clips < u32::MAX,
        was.n_open_clips < u32::MAX,
    ensures
        one_object(was, next, 0x4d, 3),
        next.draw_data@[was.draw_data@.len() as int] == parameters.blend_mode,
        next.draw_data@[was.draw_data@.len() + 1int] == parameters.alpha,
        next.draw_data@[was.draw_data@.len() + 2int] == 0,
        next.begin_clip_stack@.len() == was.begin_clip_stack@.len() + 1,
        next.begin_clip_stack@.take(was.begin_clip_stack@.len() as int) == was.begin_clip_stack@,
        next.begin_clip_stack@.last().parameters == parameters,
        next.begin_clip_stack@.last().layer_idx_slot == was.draw_data@.len() + 2,
        next.clip_filter_stack@.len() == was.clip_filter_stack@.len() + 1,
        next.clip_filter_stack@.take(was.clip_filter_stack@.len() as int) == was.clip_filter_stack@,
        next.clip_filter_stack@.last() == was.pending_layer_filter,
        next.pending_layer_filter is None,
        next.n_clips == was.n_clips + 1,
        next.n_open_clips == was.n_open_clips + 1,
        next.path_tags == was.path_tags,
        next.n_paths == was.n_paths,
        next.resources == was.resources,
        next.layer_filter_effects == was.layer_filter_effects,
{
    assert(next.draw_data.len() == next.draw_data@.len());
    assert(next.draw_tags@.take(was.draw_tags@.len() as int) =~= was.draw_tags@);
    assert(next.draw_data@.take(was.draw_data@.len() as int) =~= was.draw_data@);
    assert(next.begin_clip_stack@.take(was.begin_clip_stack@.len() as int) =~= was.begin_clip_stack@);
    assert(next.clip_filter_stack@.take(was.clip_filter_stack@.len() as int) =~= was.clip_filter_stack@);
}

/// A clip that ends repeats the words that it began with. Where it has a filter, that is added behind the
/// others with the blend and alpha of the clip, its index goes into the word that the begin reserved and
/// behind the words of the end, and the tag says so. No other word of the draw data changes.
pub proof fn ending_clips_match_their_begin(was: Encoding, next: Encoding)
    requires
        was.wf(),
        was.n_open_clips > 0,
        was.n_clips < u32::MAX,
        was.n_paths < u32::MAX,
        was.clip_ended(next),
        was.layer_filter_effects@.len() < u32::MAX,
    ensures
        ({
            let clip = was.begin_clip_stack@.last();
            let slot = clip.layer_idx_slot as int;
            let n = was.draw_data@.len() as int;
            &&& next.draw_data@[n] == was.draw_data@[slot - 2]
            &&& next.draw_data@[n + 1] == was.draw_data@[slot - 1]
            &&& next.draw_data@[n] == clip.parameters.blend_mode
            &&& next.draw_data@[n + 1] == clip.parameters.alpha
            &&& forall|i: int| 0 <= i < n && i != slot ==> next.draw_data@[i] == was.draw_data@[i]
            &&& next.draw_tags@.len() == was.draw_tags@.len() + 1
            &&& next.draw_tags@.take(was.draw_tags@.len() as int) == was.draw_tags@
            &&& match was.clip_filter_stack@.last() {
                Some(filter) => {
                    let effect = next.layer_filter_effects@.last();
                    &&& next.draw_tags@.last().0 == 0x0d
                    &&& next.draw_data@.len() == n + 3
                    &&& next.draw_data@[n + 2] == was.layer_filter_effects@.len()
                    &&& next.draw_data@[slot] == was.layer_filter_effects@.len()
                    &&& next.layer_filter_effects@.len() == was.layer_filter_effects@.len() + 1
                    &&& next.layer_filter_effects@.take(was.layer_filter_effects@.len() as int)
                        == was.layer_filter_effects@
                    &&& effect.primitive == filter
                    &&& effect.layer_blend == clip.parameters.blend_mode
                    &&& effect.layer_alpha == clip.parameters.alpha
                    &&& effect.layer_index == was.layer_filter_effects@.len()
                    &&& effect.is_nested == (exists|i: int|
                        0 <= i < was.clip_filter_stack@.len() - 1 && (#[trigger] was.clip_filter_stack@[i]) is Some)
                },
                None => {
                    &&& next.draw_tags@.last().0 == 0x09
                    &&& next.draw_data@.len() == n + 2
                    &&& next.draw_data@[slot] == 0
                    &&& next.layer_filter_effects@ == was.layer_filter_effects@
                },
            }
            &&& next.path_tags@.len() == was.path_tags@.len() + 1
            &&& next.path_tags@.take(was.path_tags@.len() as int) == was.path_tags@
            &&& next.path_tags@.last().0 == 0x10
            &&& next.begin_clip_stack@ == was.begin_clip_stack@.take(was.begin_clip_stack@.len() - 1)
            &&& next.clip_filter_stack@ == was.clip_filter_stack@.take(was.clip_filter_stack@.len() - 1)
            &&& next.n_paths == was.n_paths + 1
            &&& next.n_clips == was.n_clips + 1
            &&& next.n_open_clips == was.n_open_clips - 1
            &&& next.resources == was.resources
        }),
{
    let clip = was.begin_clip_stack@.last();
    assert(crate::encoding::points_at_begin(clip, was.draw_data@));
    let filters = was.clip_filter_stack@;
    assert(next.draw_tags@.take(was.draw_tags@.len() as int) =~= was.draw_tags@);
    assert(next.path_tags@.take(was.path_tags@.len() as int) =~= was.path_tags@);
    assert(was.layer_filter_effects@.len() + 1 == next.layer_filter_effects@.len()
        ==> next.layer_filter_effects@.take(was.layer_filter_effects@.len() as int) =~= was.layer_filter_effects@);
    assert(filters.drop_last() =~= filters.take(filters.len() - 1));
    assert(was.begin_clip_stack@.drop_last() =~= was.begin_clip_stack@.take(was.begin_clip_stack@.len() - 1));
    if exists|i: int| 0 <= i < filters.len() - 1 && (#[trigger] filters[i]) is Some {
        let i = choose|i: int| 0 <= i < filters.len() - 1 && (#[trigger] filters[i]) is Some;
        assert(filters.drop_last()[i] is Some);
    }
    if crate::encoding::any_filter(filters.drop_last()) {
        let i = choose|i: int|
            0 <= i < filters.drop_last().len() && (#[trigger] filters.drop_last()[i]) is Some;
        assert(filters[i] is Some);
    }
}

/// After a style has been encoded it is the current one, as a number: the last style of the stream has its
/// flags and its width. One that is added has its marker in the path stream, and repeating it adds nothing.
pub proof fn encoded_styles_are_current(was: Encoding, next: Encoding, style: Style)
    requires
        was.style_encoded(next, style),
    ensures
        next.styles@.len() > 0,
        next.styles@.last() == style || (next.styles@.last().flags_and_miter_limit == style.flags_and_miter_limit
            && equal(next.styles@.last().line_width, style.line_width)),
        next.styles@.len() - was.styles@.len() == next.path_tags@.len() - was.path_tags@.len(),
        next.styles@.len() == was.styles@.len() || (next.styles@.len() == was.styles@.len() + 1
            && next.path_tags@.last().0 == 0x40),
        next.styles@.take(was.styles@.len() as int) == was.styles@,
        next.path_tags@.take(was.path_tags@.len() as int) == was.path_tags@,
        was.flags & 2 != 0 ==> next.styles@.len() == was.styles@.len() + 1,
        next.flags & 2 == 0,
        next.flags & 1 == was.flags & 1,
{
    let flags = was.flags;
    assert((flags & !2u32) & 2u32 == 0 && (flags & !2u32) & 1u32 == flags & 1u32) by (bit_vector);
    assert(next.styles@.take(was.styles@.len() as int) =~= was.styles@);
    assert(next.path_tags@.take(was.path_tags@.len() as int) =~= was.path_tags@);
}

} // verus!
