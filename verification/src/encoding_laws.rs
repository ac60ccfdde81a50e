//! What holds across the operations on an encoding.

use crate::draw::DrawBeginClip;
use crate::encoding::{any_filter, points_at_begin, Encoding, GlyphRun, MovedTransforms};
use crate::float::is_nan;
use crate::path::{Style, Transform};
use vstd::prelude::*;

verus! {

/// Ending a clip right after it began restores the stacks of open clips, and leaves both
/// clip operations in the stream.
pub proof fn clip_begin_end(start: Encoding, begun: Encoding, ended: Encoding, parameters: DrawBeginClip)
    requires
        start.wf(),
        start.n_clips < u32::MAX - 1,
        start.n_open_clips < u32::MAX,
        start.clip_begun(begun, parameters),
        begun.clip_ended(ended),
    ensures
        ended.begin_clip_stack@ == start.begin_clip_stack@,
        ended.clip_filter_stack@ == start.clip_filter_stack@,
        ended.n_open_clips == start.n_open_clips,
        ended.n_clips == start.n_clips + 2,
        ended.draw_tags@.len() == start.draw_tags@.len() + 2,
        ended.pending_layer_filter is None,
        start.pending_layer_filter is None ==> ended.layer_filter_effects@ == start.layer_filter_effects@,
        start.pending_layer_filter is Some ==> ended.layer_filter_effects@.len() == start.layer_filter_effects@.len() + 1,
{
    assert(begun.begin_clip_stack@.drop_last() =~= start.begin_clip_stack@);
    assert(begun.clip_filter_stack@.drop_last() =~= start.clip_filter_stack@);
}

/// When a filter layer ends, the draw data of its begin tag hold the index of its filter,
/// behind the parameters of the layer.
pub proof fn filter_index_reaches_begin(start: Encoding, ended: Encoding)
    requires
        start.wf(),
        start.n_open_clips > 0,
        start.clip_ended(ended),
        start.clip_filter_stack@.last() is Some,
    ensures
        ({
            let clip = start.begin_clip_stack@.last();
            let slot = clip.layer_idx_slot as int;
            let effect = ended.layer_filter_effects@.last();
            &&& ended.draw_data@[slot] == effect.layer_index
            &&& ended.draw_data@[slot - 1] == clip.parameters.alpha
            &&& ended.draw_data@[slot - 2] == clip.parameters.blend_mode
            &&& effect.layer_index == start.layer_filter_effects@.len() as u32
        }),
{
    assert(points_at_begin(start.begin_clip_stack@.last(), start.draw_data@));
}

/// A filter layer is nested exactly when a layer that is still open has a filter.
pub proof fn nested_means_enclosed(start: Encoding, ended: Encoding)
    requires
        start.wf(),
        start.n_open_clips > 0,
        start.clip_ended(ended),
        start.clip_filter_stack@.last() is Some,
    ensures
        ended.layer_filter_effects@.last().is_nested == any_filter(ended.clip_filter_stack@),
{
}

/// Ending a clip adds as many paths as draw objects, so that the two stay in step.
pub proof fn paths_keep_pace(start: Encoding, ended: Encoding)
    requires
        start.n_open_clips > 0,
        start.n_paths < u32::MAX,
        start.clip_ended(ended),
    ensures
        ended.n_paths - ended.draw_tags@.len() == start.n_paths - start.draw_tags@.len(),
{
}

/// A style that was just encoded is not encoded again, as long as its width is a number.
pub proof fn style_repeats_once(start: Encoding, next: Encoding, style: Style)
    requires
        start.style_encoded(next, style),
        !is_nan(style.line_width),
    ensures
        !next.needs_style(style),
{
    let flags = start.flags;
    assert((flags & !2u32) & 2u32 == 0) by (bit_vector);
}

/// A transform that has a coefficient which is not a number is encoded each time.
pub proof fn odd_transforms_repeat(encoding: Encoding, transform: Transform)
    requires
        is_nan(transform.xx) || is_nan(transform.xy) || is_nan(transform.yx) || is_nan(transform.yy) || is_nan(
            transform.dx,
        ) || is_nan(transform.dy),
    ensures
        encoding.needs_transform(transform),
{
}

/// The offsets behind an appended encoding are the sums of both, whether or not it is transformed.
/// So are the counts of paths, segments and clips.
pub proof fn append_adds_offsets(first: Encoding, second: Encoding, joined: Encoding, moved: Option<MovedTransforms>)
    requires
        moved matches Some(m) ==> m.covers(second),
        first.appended(joined, second, moved),
    ensures
        joined.offsets() == first.offsets().sum(second.offsets()),
        first.offsets().can_add(second.offsets()),
        joined.n_paths == first.n_paths + second.n_paths,
        joined.n_path_segments == first.n_path_segments + second.n_path_segments,
        joined.n_clips == first.n_clips + second.n_clips,
        joined.n_open_clips == first.n_open_clips + second.n_open_clips,
{
    assert(joined.path_tags@.len() == joined.path_tags.len());
    assert(joined.path_data@.len() == joined.path_data.len());
    assert(joined.draw_tags@.len() == joined.draw_tags.len());
    assert(joined.draw_data@.len() == joined.draw_data.len());
    assert(joined.transforms@.len() == joined.transforms.len());
    assert(joined.styles@.len() == joined.styles.len());
}

/// Appending an empty encoding adds nothing to any stream, whether or not it is transformed.
pub proof fn append_empty(first: Encoding, empty: Encoding, joined: Encoding, moved: Option<MovedTransforms>)
    requires
        empty.is_clear(),
        moved matches Some(m) ==> m.covers(empty),
        first.appended(joined, empty, moved),
    ensures
        joined.path_tags@ == first.path_tags@,
        joined.path_data@ == first.path_data@,
        joined.draw_tags@ == first.draw_tags@,
        joined.draw_data@ == first.draw_data@,
        joined.transforms@ == first.transforms@,
        joined.styles@ == first.styles@,
        joined.resources.patches@ == first.resources.patches@,
        joined.resources.glyph_runs@ == first.resources.glyph_runs@,
        joined.begin_clip_stack@ == first.begin_clip_stack@,
        joined.layer_filter_effects@ == first.layer_filter_effects@,
        joined.coverage_mask == first.coverage_mask,
        joined.n_paths == first.n_paths,
        joined.n_path_segments == first.n_path_segments,
        joined.n_clips == first.n_clips,
        joined.n_open_clips == first.n_open_clips,
{
    assert(joined.path_tags@ =~= first.path_tags@);
    assert(joined.path_data@ =~= first.path_data@);
    assert(joined.draw_tags@ =~= first.draw_tags@);
    assert(joined.draw_data@ =~= first.draw_data@);
    assert(joined.transforms@ =~= first.transforms@);
    assert(joined.styles@ =~= first.styles@);
    assert(joined.resources.patches@ =~= first.resources.patches@);
    assert(joined.resources.glyph_runs@ =~= first.resources.glyph_runs@);
    assert(joined.begin_clip_stack@ =~= first.begin_clip_stack@);
    assert(joined.layer_filter_effects@ =~= first.layer_filter_effects@);
}

/// Appending is associative: three encodings give the same streams, resources and open
/// clips, whichever two are joined first. Each of the four steps may come with a transform; the
/// transforms that the second and the third encoding end up with have to be the same either way, as
/// they are where no step has one, or where one transform moves both.
pub proof fn append_is_associative(
    a: Encoding,
    b: Encoding,
    c: Encoding,
    ab: Encoding,
    ab_c: Encoding,
    bc: Encoding,
    a_bc: Encoding,
    moved_b: Option<MovedTransforms>,
    moved_c: Option<MovedTransforms>,
    inner: Option<MovedTransforms>,
    outer: Option<MovedTransforms>,
)
    requires
        moved_b matches Some(m) ==> m.covers(b),
        moved_c matches Some(m) ==> m.covers(c),
        inner matches Some(m) ==> m.covers(c),
        outer matches Some(m) ==> m.covers(bc),
        a.can_append(b),
        a.appended(ab, b, moved_b),
        ab.can_append(c),
        ab.appended(ab_c, c, moved_c),
        b.can_append(c),
        b.appended(bc, c, inner),
        a.can_append(bc),
        a.appended(a_bc, bc, outer),
        Encoding::transforms_moved(bc, outer) == Encoding::transforms_moved(b, moved_b) + Encoding::transforms_moved(
            c,
            moved_c,
        ),
        Encoding::run_transforms_moved(bc, outer) == Encoding::run_transforms_moved(b, moved_b)
            + Encoding::run_transforms_moved(c, moved_c),
    ensures
        ab_c.path_tags@ == a_bc.path_tags@,
        ab_c.path_data@ == a_bc.path_data@,
        ab_c.draw_tags@ == a_bc.draw_tags@,
        ab_c.draw_data@ == a_bc.draw_data@,
        ab_c.transforms@ == a_bc.transforms@,
        ab_c.styles@ == a_bc.styles@,
        ab_c.resources.patches@ == a_bc.resources.patches@,
        ab_c.resources.color_stops@ == a_bc.resources.color_stops@,
        ab_c.resources.glyphs@ == a_bc.resources.glyphs@,
        ab_c.resources.glyph_runs@ == a_bc.resources.glyph_runs@,
        ab_c.resources.normalized_coords@ == a_bc.resources.normalized_coords@,
        ab_c.begin_clip_stack@ == a_bc.begin_clip_stack@,
        ab_c.clip_filter_stack@ == a_bc.clip_filter_stack@,
        ab_c.layer_filter_effects@ == a_bc.layer_filter_effects@,
        ab_c.n_paths == a_bc.n_paths,
        ab_c.n_path_segments == a_bc.n_path_segments,
        ab_c.n_clips == a_bc.n_clips,
        ab_c.n_open_clips == a_bc.n_open_clips,
        ab_c.flags == a_bc.flags,
        ab_c.coverage_mask == a_bc.coverage_mask,
        ab_c.pending_layer_filter == a_bc.pending_layer_filter,
{
    assert(ab_c.path_tags@ =~= a_bc.path_tags@);
    assert(ab_c.path_data@ =~= a_bc.path_data@);
    assert(ab_c.draw_tags@ =~= a_bc.draw_tags@);
    assert(ab_c.draw_data@ =~= a_bc.draw_data@);
    assert(ab_c.transforms@ =~= a_bc.transforms@);
    assert(ab_c.styles@ =~= a_bc.styles@);
    assert(ab_c.resources.color_stops@ =~= a_bc.resources.color_stops@);
    assert(ab_c.resources.glyphs@ =~= a_bc.resources.glyphs@);
    assert(ab_c.resources.normalized_coords@ =~= a_bc.resources.normalized_coords@);
    assert(ab_c.clip_filter_stack@ =~= a_bc.clip_filter_stack@);
    assert(ab_c.layer_filter_effects@ =~= a_bc.layer_filter_effects@);
    assert(ab_c.resources.patches@ =~= a_bc.resources.patches@) by {
        assert forall|i: int| 0 <= i < c.resources.patches@.len() implies (
        #[trigger] c.resources.patches@[i]).rebased(ab.bases()) == c.resources.patches@[i].rebased(b.bases()).rebased(
            a.bases(),
        ) by {
            let p = c.resources.patches@[i];
            assert(p.can_rebase(b.bases()));
            let k = b.resources.patches@.len() + i;
            assert(bc.resources.patches@[k] == p.rebased(b.bases()));
            assert(bc.resources.patches@[k].can_rebase(a.bases()));
        }
        assert forall|i: int| 0 <= i < ab_c.resources.patches@.len() implies ab_c.resources.patches@[i]
            == a_bc.resources.patches@[i] by {
            let na = a.resources.patches@.len();
            let nb = b.resources.patches@.len();
            if i >= na + nb {
                let k = i - na - nb;
                assert(c.resources.patches@[k].rebased(ab.bases()) == ab_c.resources.patches@[i]);
                assert(bc.resources.patches@[nb + k] == c.resources.patches@[k].rebased(b.bases()));
            } else if i >= na {
                assert(bc.resources.patches@[i - na] == b.resources.patches@[i - na]);
            }
        }
    }
    assert(ab_c.resources.glyph_runs@ =~= a_bc.resources.glyph_runs@) by {
        let na = a.resources.glyph_runs@.len();
        let nb = b.resources.glyph_runs@.len();
        let runs = Encoding::run_transforms_moved(bc, outer);
        assert forall|i: int| 0 <= i < ab_c.resources.glyph_runs@.len() implies ab_c.resources.glyph_runs@[i]
            == a_bc.resources.glyph_runs@[i] by {
            if i >= na + nb {
                let k = i - na - nb;
                let run = c.resources.glyph_runs@[k];
                assert(run.can_rebase(b.bases()));
                assert(bc.resources.glyph_runs@[nb + k] == (GlyphRun {
                    transform: bc.resources.glyph_runs@[nb + k].transform,
                    ..run.rebased(b.bases())
                }));
                assert(bc.resources.glyph_runs@[nb + k].can_rebase(a.bases()));
                assert(runs[nb + k] == Encoding::run_transforms_moved(c, moved_c)[k]);
                assert(ab_c.resources.glyph_runs@[i] == (GlyphRun {
                    transform: runs[nb + k],
                    ..run.rebased(ab.bases())
                }));
                assert(a_bc.resources.glyph_runs@[i] == (GlyphRun {
                    transform: runs[nb + k],
                    ..bc.resources.glyph_runs@[nb + k].rebased(a.bases())
                }));
            } else if i >= na {
                let k = i - na;
                assert(bc.resources.glyph_runs@[k] == b.resources.glyph_runs@[k]);
                assert(runs[k] == Encoding::run_transforms_moved(b, moved_b)[k]);
                assert(ab_c.resources.glyph_runs@[i] == ab.resources.glyph_runs@[i]);
                assert(ab.resources.glyph_runs@[i] == (GlyphRun {
                    transform: runs[k],
                    ..b.resources.glyph_runs@[k].rebased(a.bases())
                }));
                assert(a_bc.resources.glyph_runs@[i] == (GlyphRun {
                    transform: runs[k],
                    ..bc.resources.glyph_runs@[k].rebased(a.bases())
                }));
            }
        }
    }
    assert(ab_c.begin_clip_stack@ =~= a_bc.begin_clip_stack@) by {
        assert forall|i: int| 0 <= i < ab_c.begin_clip_stack@.len() implies ab_c.begin_clip_stack@[i]
            == a_bc.begin_clip_stack@[i] by {
            let na = a.begin_clip_stack@.len();
            let nb = b.begin_clip_stack@.len();
            if i >= na + nb {
                let k = i - na - nb;
                let clip = c.begin_clip_stack@[k];
                assert(bc.begin_clip_stack@[nb + k] == clip.rebased(b.draw_data@.len() as int));
                assert(bc.begin_clip_stack@[nb + k].layer_idx_slot + a.draw_data@.len() <= usize::MAX);
                assert(clip.layer_idx_slot + b.draw_data@.len() <= usize::MAX);
            } else if i >= na {
                assert(bc.begin_clip_stack@[i - na] == b.begin_clip_stack@[i - na]);
            }
        }
    }
}

} // verus!
