//! What decorations, hints, draw tags and debug drawing amount to.

use crate::config::BumpAllocators;
use crate::debug_renderer::{
    deferred_names, lone_points, segment_points, DebugLayers, DebugPlan, DebugRenderer, LinepointsUniforms,
};
use crate::decoration::{
    covered, gaps, greatest, hints_under, in_range, least, mark_on_line, marked, separated, spans_are_what_is_left,
    with_crossings, with_end, Range,
};
use crate::draw::{DrawMonoid, DrawTag};
use crate::filter::FilterEdgeMode;
use crate::float::{greater, is_nan};
use crate::path::{Style, Transform};
use crate::render::CapturedBuffers;
use crate::RenderParams;
use vstd::prelude::*;

verus! {

/// The bounds of a segment hold all of its places, and each bound is one of them.
pub proof fn bounds_hold_their_places(places: Seq<i64>, i: int)
    requires
        0 <= i < places.len(),
    ensures
        least(places) <= places[i] <= greatest(places),
        places.contains(least(places)),
        places.contains(greatest(places)),
    decreases places.len(),
{
    assert(places.contains(places[0]));
    if places.len() > 1 {
        let rest = places.drop_last();
        bounds_hold_their_places(rest, if i < rest.len() {
            i
        } else {
            0
        });
        let lo = rest.index_of(least(rest));
        let hi = rest.index_of(greatest(rest));
        assert(places[lo] == least(rest));
        assert(places[hi] == greatest(rest));
        assert(places.contains(places[places.len() - 1]));
    }
}

/// The extent of a glyph in a band grows to hold every crossing of a segment with the band, and those ends of the
/// segment that lie in it, and no further.
pub proof fn extents_hold_their_segment(
    extent: Range,
    band: Range,
    crossings: Seq<i64>,
    start: (i64, i64),
    end: (i64, i64),
    i: int,
)
    requires
        0 <= i < crossings.len(),
    ensures
        ({
            let r = with_end(with_end(with_crossings(extent, crossings, crossings.len() as int), start, band), end, band);
            let start_in = band.0 <= start.1 && start.1 <= band.1;
            let end_in = band.0 <= end.1 && end.1 <= band.1;
            &&& r.0 <= extent.0 && extent.1 <= r.1
            &&& r.0 <= crossings[i] <= r.1
            &&& start_in ==> r.0 <= start.0 <= r.1
            &&& end_in ==> r.0 <= end.0 <= r.1
            &&& r.0 == extent.0 || crossings.contains(r.0) || (start_in && r.0 == start.0) || (end_in && r.0 == end.0)
            &&& r.1 == extent.1 || crossings.contains(r.1) || (start_in && r.1 == start.0) || (end_in && r.1 == end.0)
        }),
{
    crate::decoration::extent_holds_crossings(extent, crossings, crossings.len() as int);
    lemma_extent_is_tight(extent, crossings, crossings.len() as int);
}

proof fn lemma_extent_is_tight(extent: Range, crossings: Seq<i64>, n: int)
    requires
        0 <= n <= crossings.len(),
    ensures
        with_crossings(extent, crossings, n).0 == extent.0 || crossings.contains(with_crossings(extent, crossings, n).0),
        with_crossings(extent, crossings, n).1 == extent.1 || crossings.contains(with_crossings(extent, crossings, n).1),
    decreases n,
{
    if n > 0 {
        lemma_extent_is_tight(extent, crossings, n - 1);
        assert(crossings.contains(crossings[n - 1]));
    }
}

/// A mark counts on a line exactly where it lies on the line, and where that has any length.
pub proof fn marks_are_cut_to_the_line(mark: Range, x0: i64, x1: i64, point: int)
    ensures
        mark_on_line(mark, x0, x1) matches Some(r) ==> {
            &&& r.0 < r.1
            &&& in_range(r, point) <==> in_range(mark, point) && 2 * x0 <= point <= 2 * x1
        },
        mark_on_line(mark, x0, x1) is None ==> !(2 * mark.0 < point < 2 * mark.1 && 2 * x0 < point < 2 * x1),
{
}

/// A decoration is drawn along the line wherever no mark is, and never inside of a mark.
pub proof fn decorations_avoid_marks(x0: i64, x1: i64, marks: Seq<Range>, exclusions: Seq<Range>, point: int, i: int)
    requires
        separated(exclusions),
        forall|p: int| #![trigger covered(exclusions, p)] covered(exclusions, p) == marked(marks, x0, x1, p),
        forall|k: int| 0 <= k < exclusions.len() ==> x0 <= (#[trigger] exclusions[k]).0 && exclusions[k].1 <= x1,
        2 * x0 < point < 2 * x1,
    ensures
        (forall|k: int| 0 <= k < marks.len() ==> !in_range(#[trigger] marks[k], point)) ==> covered(
            gaps(x0, exclusions, x1),
            point,
        ),
        0 <= i < marks.len() && 2 * marks[i].0 < point < 2 * marks[i].1 ==> !covered(gaps(x0, exclusions, x1), point),
{
    spans_are_what_is_left(x0, x1, exclusions, point);
    if forall|k: int| 0 <= k < marks.len() ==> !in_range(#[trigger] marks[k], point) {
        assert(!marked(marks, x0, x1, point)) by {
            assert forall|k: int| 0 <= k < marks.len() implies !(mark_on_line(#[trigger] marks[k], x0, x1) matches Some(r)
                && in_range(r, point)) by {
                marks_are_cut_to_the_line(marks[k], x0, x1, point);
                assert(!in_range(marks[k], point));
            }
        }
        assert(!covered(exclusions, point));
    }
    if 0 <= i < marks.len() && 2 * marks[i].0 < point < 2 * marks[i].1 {
        marks_are_cut_to_the_line(marks[i], x0, x1, point);
        marks_are_cut_to_the_line(marks[i], x0, x1, point - 1);
        marks_are_cut_to_the_line(marks[i], x0, x1, point + 1);
        assert(marked(marks, x0, x1, point));
        assert(marked(marks, x0, x1, point - 1));
        assert(marked(marks, x0, x1, point + 1));
        assert(covered(exclusions, point) && covered(exclusions, point - 1) && covered(exclusions, point + 1));
        let e = choose|e: int| 0 <= e < exclusions.len() && in_range(#[trigger] exclusions[e], point);
        let before = choose|e: int| 0 <= e < exclusions.len() && in_range(#[trigger] exclusions[e], point - 1);
        let after = choose|e: int| 0 <= e < exclusions.len() && in_range(#[trigger] exclusions[e], point + 1);
        if before < e {
            assert(exclusions[before].1 < exclusions[e].0);
        } else if before > e {
            assert(exclusions[e].1 < exclusions[before].0);
        }
        if after < e {
            assert(exclusions[after].1 < exclusions[e].0);
        } else if after > e {
            assert(exclusions[e].1 < exclusions[after].0);
        }
        assert(2 * exclusions[e].0 < point < 2 * exclusions[e].1);
    }
}

/// What is left of a line are pieces of some length, from left to right, that stay on the line.
pub proof fn spans_stay_on_the_line(x0: i64, x1: i64, exclusions: Seq<Range>, k: int)
    requires
        forall|i: int| 0 <= i < exclusions.len() ==> x0 <= (#[trigger] exclusions[i]).0 <= exclusions[i].1 <= x1,
        0 <= k < gaps(x0, exclusions, x1).len(),
        separated(exclusions),
    ensures
        ({
            let spans = gaps(x0, exclusions, x1);
            &&& x0 <= spans[k].0 < spans[k].1 <= x1
            &&& k + 1 < spans.len() ==> spans[k].1 <= spans[k + 1].0
        }),
    decreases exclusions.len(),
{
    if exclusions.len() > 0 {
        let rest = exclusions.skip(1);
        let from = exclusions[0].1;
        let more = gaps(from, rest, x1);
        let spans = gaps(x0, exclusions, x1);
        let n = spans.len() - more.len();
        assert forall|i: int| 0 <= i < rest.len() implies from <= (#[trigger] rest[i]).0 <= rest[i].1 <= x1 by {
            assert(rest[i] == exclusions[i + 1]);
            assert(exclusions[0].1 < exclusions[i + 1].0);
        }
        assert(separated(rest)) by {
            assert forall|i: int| 0 <= i < rest.len() implies (#[trigger] rest[i]).0 <= rest[i].1 by {
                assert(rest[i] == exclusions[i + 1]);
            }
            assert forall|i: int, j: int| 0 <= i < j < rest.len() implies (#[trigger] rest[i]).1 < (#[trigger] rest[j]).0 by {
                assert(rest[i] == exclusions[i + 1] && rest[j] == exclusions[j + 1]);
            }
        }
        if k >= n {
            spans_stay_on_the_line(from, x1, rest, k - n);
            assert(spans[k] == more[k - n]);
            if k + 1 < spans.len() {
                assert(spans[k + 1] == more[k - n + 1]);
            }
        } else {
            assert(spans[k] == (x0, exclusions[0].0));
            if k + 1 < spans.len() {
                spans_stay_on_the_line(from, x1, rest, 0);
                assert(spans[k + 1] == more[0]);
            }
        }
    }
}

/// Text is hinted exactly under a positive scale that is the same along both axes, without shear or rotation.
pub proof fn hints_need_an_even_scale(matrix: [u32; 4])
    ensures
        hints_under(matrix) <==> {
            &&& matrix@[0] == matrix@[3]
            &&& 0 < matrix@[0] <= 0x7f80_0000
            &&& matrix@[1] == 0 || matrix@[1] == 0x8000_0000
            &&& matrix@[2] == 0 || matrix@[2] == 0x8000_0000
        },
{
    lemma_sign(matrix@[0]);
    lemma_sign(matrix@[1]);
    lemma_sign(matrix@[2]);
    lemma_sign(matrix@[3]);
    lemma_sign(0);
}

proof fn lemma_sign(bits: u32)
    ensures
        bits < 0x8000_0000 ==> bits & 0x7fff_ffff == bits,
        bits >= 0x8000_0000 ==> bits & 0x7fff_ffff == bits - 0x8000_0000,
{
    assert(bits < 0x8000_0000u32 ==> bits & 0x7fff_ffff == bits) by (bit_vector);
    assert(bits >= 0x8000_0000u32 ==> bits & 0x7fff_ffff == bits - 0x8000_0000u32) by (bit_vector);
}

/// A draw tag tells in its bits what it contributes: in the lowest whether it is a clip, in the third to fifth how
/// much draw data it has, and in the seventh to tenth how much draw info. Every tag but the empty one is a path.
pub proof fn tags_tell_their_sizes(tag: DrawTag)
    ensures
        DrawMonoid::of_tag(tag).clip_ix == tag.0 % 2,
        DrawMonoid::of_tag(tag).scene_offset == tag.0 / 4 % 8,
        DrawMonoid::of_tag(tag).info_offset == tag.0 / 64 % 16,
        DrawMonoid::of_tag(tag).path_ix == (if tag.0 == 0 {
            0int
        } else {
            1
        }),
{
    let t = tag.0;
    assert(t & 1 == t % 2 && (t >> 2) & 7 == t / 4 % 8 && (t >> 6) & 0xf == t / 64 % 16) by (bit_vector);
}

/// Sums of contributions count each of the four kinds on its own.
pub proof fn contributions_are_counted_apart(a: DrawMonoid, b: DrawMonoid)
    requires
        a.can_combine(b),
    ensures
        a.sum(b).path_ix == a.path_ix + b.path_ix,
        a.sum(b).clip_ix == a.clip_ix + b.clip_ix,
        a.sum(b).scene_offset == a.scene_offset + b.scene_offset,
        a.sum(b).info_offset == a.info_offset + b.info_offset,
        a.can_combine(b) <==> b.can_combine(a),
{
}

/// Two transforms pass for the same exactly where no component of one is larger than that of the other, and none is
/// not a number.
pub proof fn transforms_are_the_same_in_all_components(a: Transform, b: Transform)
    ensures
        a.same_transform(b) <==> {
            &&& agree(a.xx, b.xx) && agree(a.xy, b.xy) && agree(a.yx, b.yx)
            &&& agree(a.yy, b.yy) && agree(a.dx, b.dx) && agree(a.dy, b.dy)
        },
{
}

/// Neither number is larger than the other, and both are numbers.
pub open spec fn agree(a: u32, b: u32) -> bool {
    !greater(a, b) && !greater(b, a) && !is_nan(a) && !is_nan(b)
}

/// Two styles pass for the same exactly where their flags are and their line widths agree.
pub proof fn styles_are_the_same_in_both_parts(a: Style, b: Style)
    ensures
        a.same_style(b) <==> a.flags_and_miter_limit == b.flags_and_miter_limit && agree(a.line_width, b.line_width),
{
}

/// Edge modes are numbered in the order in which the filter shader knows them.
pub proof fn edge_modes_are_numbered(mode: FilterEdgeMode)
    ensures
        mode.number() < 4,
        mode.number() == 0 <==> mode is NoEdge,
        mode.number() == 1 <==> mode is Duplicate,
        mode.number() == 2 <==> mode is Wrap,
        mode.number() == 3 <==> mode is Mirror,
{
}

/// A debug layer is drawn exactly where it is asked for, each with its own shader and as often as there are things to
/// show, above a tint that covers the frame.
pub proof fn debug_layers_are_drawn(
    renderer: DebugRenderer,
    layers: DebugLayers,
    captured: CapturedBuffers,
    bump: BumpAllocators,
    unpaired: int,
)
    requires
        0 <= unpaired <= u32::MAX,
    ensures
        ({
            let draws = renderer.draws(layers, captured, bump, unpaired);
            let boxes = if layers.bounding_boxes {
                1int
            } else {
                0
            };
            let segments = if layers.linesoup_segments {
                1int
            } else {
                0
            };
            let points = if layers.linesoup_points {
                1int
            } else {
                0
            };
            let lone = layers.validation && unpaired > 0;
            &&& draws.len() == 1 + boxes + segments + points + (if lone {
                1int
            } else {
                0
            })
            &&& draws[0].shader_id == renderer.clear_tint && draws[0].instance_count == 1 && draws[0].vertex_count == 4
            &&& layers.bounding_boxes ==> draws[1].shader_id == renderer.bboxes && draws[1].vertex_count == 5
                && draws[1].instance_count == captured.sizes.path_bboxes@
            &&& layers.linesoup_segments ==> {
                let d = draws[1 + boxes];
                d.shader_id == renderer.linesoup && d.vertex_count == 4 && d.instance_count == bump.lines
            }
            &&& layers.linesoup_points ==> {
                let d = draws[1 + boxes + segments];
                d.shader_id == renderer.linesoup_points && d.vertex_count == 4 && d.instance_count == bump.lines
            }
            &&& lone ==> {
                let d = draws.last();
                d.shader_id == renderer.unpaired_points && d.vertex_count == 4 && d.instance_count == unpaired
                    && d.unpaired_points
            }
            &&& forall|k: int| 0 <= k < draws.len() && !(lone && k == draws.len() - 1) ==> !(#[trigger] draws[k]).unpaired_points
        }),
{
    captured.sizes.path_bboxes.size_is_a_count();
}

/// The uniform of a point layer holds its color and its size in front, and fills its slot with zeros.
pub proof fn point_uniforms_fill_their_slot(u: LinepointsUniforms, i: int)
    requires
        0 <= i < 64,
    ensures
        u.words().len() == 64,
        u.words()[i] == (if i < 3 {
            u.point_color@[i]
        } else if i == 3 {
            u.point_size
        } else {
            0
        }),
{
}

/// A transform is six words: the two columns of its matrix, and then its translation.
pub proof fn transforms_are_six_words(t: Transform)
    ensures
        t.words().len() == 6,
        t.words()[0] == t.xx,
        t.words()[1] == t.xy,
        t.words()[2] == t.yx,
        t.words()[3] == t.yy,
        t.words()[4] == t.dx,
        t.words()[5] == t.dy,
{
}

/// What a debug frame leaves to be freed: both uniforms, and the points that have no partner where they were shown.
pub proof fn debug_buffers_are_freed(shown: bool)
    ensures
        deferred_names(shown).contains("ekrano.debug_uniforms"),
        deferred_names(shown).contains("ekrano.debug.linepoints_uniforms"),
        shown ==> deferred_names(shown).contains("ekrano.debug.vertex_buffer"),
        deferred_names(shown).len() == (if shown {
            3int
        } else {
            2
        }),
{
    let names = deferred_names(shown);
    let n = names.len() as int;
    assert(names[n - 2] == "ekrano.debug_uniforms");
    assert(names[n - 1] == "ekrano.debug.linepoints_uniforms");
    assert(shown ==> names[0] == "ekrano.debug.vertex_buffer");
}

/// The two kinds of points are told apart: those of segments are dark cyan and ten pixels wide, those without a
/// partner are red and eighty.
pub proof fn points_are_told_apart(params: RenderParams, plan: DebugPlan, unpaired: Option<Seq<u8>>)
    requires
        plan.uploads(params, unpaired),
    ensures
        plan.uniforms.bytes@.len() == 8,
        plan.linepoints_uniforms.bytes@.len() == 512,
        plan.linepoints_uniforms.stride == 256,
        plan.unpaired_points is Some <==> unpaired is Some,
        plan.unpaired_points matches Some(upload) ==> unpaired == Some(upload.bytes@),
        segment_points().len() == 64,
        lone_points().len() == 64,
        segment_points()[0] == 0 && segment_points()[1] == segment_points()[2] && segment_points()[1] == 0x3f0b_8b8c,
        segment_points()[3] == 0x4120_0000,
        lone_points()[0] == 0x3f80_0000 && lone_points()[1] == 0 && lone_points()[2] == 0,
        lone_points()[3] == 0x42a0_0000,
{
}

} // verus!
