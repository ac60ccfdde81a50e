//! What appending one encoding to another amounts to: everything that pointed into the second one still
//! points at the same thing.

use crate::encoding::{Encoding, IndexRange, MovedTransforms, Patch};
use vstd::prelude::*;

verus! {

/// The range lies in a buffer of `len` elements.
pub open spec fn lies_in(range: IndexRange, len: nat) -> bool {
    range.start <= range.end <= len
}

/// The two ranges name the same elements, each in its own buffer.
pub open spec fn same_elements<T>(a: Seq<T>, range_a: IndexRange, b: Seq<T>, range_b: IndexRange) -> bool {
    &&& lies_in(range_a, a.len())
    &&& lies_in(range_b, b.len())
    &&& a.subrange(range_a.start as int, range_a.end as int) == b.subrange(range_b.start as int, range_b.end as int)
}

/// Both places have the same behind them: counted from the end, they are the same place of two
/// streams that end alike.
pub open spec fn same_rest<T>(a: Seq<T>, at_a: int, b: Seq<T>, at_b: int) -> bool {
    0 <= at_a <= a.len() && 0 <= at_b <= b.len() && a.skip(at_a) == b.skip(at_b)
}

/// Every stream of the joined encoding is that of the first one, followed by that of the second.
/// Only the transforms differ where the second one is moved, and what points into a stream is adjusted.
pub proof fn appended_streams_follow(first: Encoding, other: Encoding, joined: Encoding, moved: Option<MovedTransforms>)
    requires
        first.appended(joined, other, moved),
        moved matches Some(m) ==> m.covers(other),
    ensures
        joined.path_tags@.take(first.path_tags@.len() as int) == first.path_tags@,
        joined.path_tags@.skip(first.path_tags@.len() as int) == other.path_tags@,
        joined.path_data@.take(first.path_data@.len() as int) == first.path_data@,
        joined.path_data@.skip(first.path_data@.len() as int) == other.path_data@,
        joined.draw_tags@.take(first.draw_tags@.len() as int) == first.draw_tags@,
        joined.draw_tags@.skip(first.draw_tags@.len() as int) == other.draw_tags@,
        joined.draw_data@.take(first.draw_data@.len() as int) == first.draw_data@,
        joined.draw_data@.skip(first.draw_data@.len() as int) == other.draw_data@,
        joined.styles@.take(first.styles@.len() as int) == first.styles@,
        joined.styles@.skip(first.styles@.len() as int) == other.styles@,
        joined.transforms@.take(first.transforms@.len() as int) == first.transforms@,
        joined.transforms@.skip(first.transforms@.len() as int) == (match moved {
            Some(m) => m.transforms@,
            None => other.transforms@,
        }),
        joined.resources.color_stops@.take(first.resources.color_stops@.len() as int) == first.resources.color_stops@,
        joined.resources.color_stops@.skip(first.resources.color_stops@.len() as int) == other.resources.color_stops@,
        joined.resources.glyphs@.take(first.resources.glyphs@.len() as int) == first.resources.glyphs@,
        joined.resources.glyphs@.skip(first.resources.glyphs@.len() as int) == other.resources.glyphs@,
        joined.resources.normalized_coords@.take(first.resources.normalized_coords@.len() as int)
            == first.resources.normalized_coords@,
        joined.resources.normalized_coords@.skip(first.resources.normalized_coords@.len() as int)
            == other.resources.normalized_coords@,
        joined.resources.glyph_runs@.take(first.resources.glyph_runs@.len() as int) == first.resources.glyph_runs@,
        joined.resources.glyph_runs@.len() == first.resources.glyph_runs@.len() + other.resources.glyph_runs@.len(),
        joined.resources.patches@.take(first.resources.patches@.len() as int) == first.resources.patches@,
        joined.resources.patches@.len() == first.resources.patches@.len() + other.resources.patches@.len(),
        joined.begin_clip_stack@.take(first.begin_clip_stack@.len() as int) == first.begin_clip_stack@,
        joined.begin_clip_stack@.len() == first.begin_clip_stack@.len() + other.begin_clip_stack@.len(),
        joined.clip_filter_stack@.take(first.clip_filter_stack@.len() as int) == first.clip_filter_stack@,
        joined.clip_filter_stack@.skip(first.clip_filter_stack@.len() as int) == other.clip_filter_stack@,
        joined.layer_filter_effects@.take(first.layer_filter_effects@.len() as int) == first.layer_filter_effects@,
        joined.layer_filter_effects@.skip(first.layer_filter_effects@.len() as int) == other.layer_filter_effects@,
{
    assert(joined.path_tags@.take(first.path_tags@.len() as int) =~= first.path_tags@);
    assert(joined.path_tags@.skip(first.path_tags@.len() as int) =~= other.path_tags@);
    assert(joined.path_data@.take(first.path_data@.len() as int) =~= first.path_data@);
    assert(joined.path_data@.skip(first.path_data@.len() as int) =~= other.path_data@);
    assert(joined.draw_tags@.take(first.draw_tags@.len() as int) =~= first.draw_tags@);
    assert(joined.draw_tags@.skip(first.draw_tags@.len() as int) =~= other.draw_tags@);
    assert(joined.draw_data@.take(first.draw_data@.len() as int) =~= first.draw_data@);
    assert(joined.draw_data@.skip(first.draw_data@.len() as int) =~= other.draw_data@);
    assert(joined.styles@.take(first.styles@.len() as int) =~= first.styles@);
    assert(joined.styles@.skip(first.styles@.len() as int) =~= other.styles@);
    assert(joined.transforms@.take(first.transforms@.len() as int) =~= first.transforms@);
    assert(joined.transforms@.skip(first.transforms@.len() as int) =~= Encoding::transforms_moved(other, moved));
    let (a, b, c) = (first.resources, other.resources, joined.resources);
    assert(c.color_stops@.take(a.color_stops@.len() as int) =~= a.color_stops@);
    assert(c.color_stops@.skip(a.color_stops@.len() as int) =~= b.color_stops@);
    assert(c.glyphs@.take(a.glyphs@.len() as int) =~= a.glyphs@);
    assert(c.glyphs@.skip(a.glyphs@.len() as int) =~= b.glyphs@);
    assert(c.normalized_coords@.take(a.normalized_coords@.len() as int) =~= a.normalized_coords@);
    assert(c.normalized_coords@.skip(a.normalized_coords@.len() as int) =~= b.normalized_coords@);
    assert(c.glyph_runs@.take(a.glyph_runs@.len() as int) =~= a.glyph_runs@);
    assert(c.patches@.take(a.patches@.len() as int) =~= a.patches@);
    assert(joined.begin_clip_stack@.take(first.begin_clip_stack@.len() as int) =~= first.begin_clip_stack@);
    assert(joined.clip_filter_stack@.take(first.clip_filter_stack@.len() as int) =~= first.clip_filter_stack@);
    assert(joined.clip_filter_stack@.skip(first.clip_filter_stack@.len() as int) =~= other.clip_filter_stack@);
    assert(joined.layer_filter_effects@.take(first.layer_filter_effects@.len() as int) =~= first.layer_filter_effects@);
    assert(joined.layer_filter_effects@.skip(first.layer_filter_effects@.len() as int) =~= other.layer_filter_effects@);
}

proof fn lemma_moved_range<T>(first: Seq<T>, other: Seq<T>, joined: Seq<T>, range: IndexRange, moved: IndexRange)
    requires
        joined == first + other,
        lies_in(range, other.len()),
        moved.start == range.start + first.len(),
        moved.end == range.end + first.len(),
    ensures
        same_elements(joined, moved, other, range),
{
    assert(joined.subrange(moved.start as int, moved.end as int) =~= other.subrange(
        range.start as int,
        range.end as int,
    ));
}

proof fn lemma_moved_place<T>(first: Seq<T>, other: Seq<T>, joined: Seq<T>, at: int)
    requires
        joined == first + other,
        0 <= at <= other.len(),
    ensures
        same_rest(joined, at + first.len(), other, at),
{
    assert(joined.skip(at + first.len()) =~= other.skip(at));
}

/// An appended glyph run still names its own glyphs and coordinates, in its own font, and is still
/// inserted at its own place of each stream. Its transform is its own, or the one that it was moved to.
pub proof fn appended_runs_keep_their_glyphs(
    first: Encoding,
    other: Encoding,
    joined: Encoding,
    moved: Option<MovedTransforms>,
    i: int,
)
    requires
        first.can_append(other),
        first.appended(joined, other, moved),
        moved matches Some(m) ==> m.covers(other),
        0 <= i < other.resources.glyph_runs@.len(),
    ensures
        ({
            let was = other.resources.glyph_runs@[i];
            let run = joined.resources.glyph_runs@[first.resources.glyph_runs@.len() + i];
            &&& run.font == was.font
            &&& run.transform == (match moved {
                Some(m) => m.run_transforms@[i],
                None => was.transform,
            })
            &&& lies_in(was.glyphs, other.resources.glyphs@.len()) ==> same_elements(
                joined.resources.glyphs@,
                run.glyphs,
                other.resources.glyphs@,
                was.glyphs,
            )
            &&& lies_in(was.normalized_coords, other.resources.normalized_coords@.len()) ==> same_elements(
                joined.resources.normalized_coords@,
                run.normalized_coords,
                other.resources.normalized_coords@,
                was.normalized_coords,
            )
            &&& was.stream_offsets.path_tags <= other.path_tags@.len() ==> same_rest(
                joined.path_tags@,
                run.stream_offsets.path_tags as int,
                other.path_tags@,
                was.stream_offsets.path_tags as int,
            )
            &&& was.stream_offsets.path_data <= other.path_data@.len() ==> same_rest(
                joined.path_data@,
                run.stream_offsets.path_data as int,
                other.path_data@,
                was.stream_offsets.path_data as int,
            )
            &&& was.stream_offsets.draw_tags <= other.draw_tags@.len() ==> same_rest(
                joined.draw_tags@,
                run.stream_offsets.draw_tags as int,
                other.draw_tags@,
                was.stream_offsets.draw_tags as int,
            )
            &&& was.stream_offsets.draw_data <= other.draw_data@.len() ==> same_rest(
                joined.draw_data@,
                run.stream_offsets.draw_data as int,
                other.draw_data@,
                was.stream_offsets.draw_data as int,
            )
            &&& was.stream_offsets.styles <= other.styles@.len() ==> same_rest(
                joined.styles@,
                run.stream_offsets.styles as int,
                other.styles@,
                was.stream_offsets.styles as int,
            )
            &&& was.stream_offsets.transforms <= other.transforms@.len() ==> joined.transforms@.len()
                - run.stream_offsets.transforms == other.transforms@.len() - was.stream_offsets.transforms
        }),
{
    let was = other.resources.glyph_runs@[i];
    let run = joined.resources.glyph_runs@[first.resources.glyph_runs@.len() + i];
    assert(was.can_rebase(first.bases()));
    assert(run == first.moved_runs(other, moved)[i]);
    let (a, b, c) = (first.resources, other.resources, joined.resources);
    if lies_in(was.glyphs, b.glyphs@.len()) {
        lemma_moved_range(a.glyphs@, b.glyphs@, c.glyphs@, was.glyphs, run.glyphs);
    }
    if lies_in(was.normalized_coords, b.normalized_coords@.len()) {
        lemma_moved_range(
            a.normalized_coords@,
            b.normalized_coords@,
            c.normalized_coords@,
            was.normalized_coords,
            run.normalized_coords,
        );
    }
    assert(first.path_tags.len() == first.path_tags@.len() && first.path_data.len() == first.path_data@.len());
    assert(first.draw_tags.len() == first.draw_tags@.len() && first.draw_data.len() == first.draw_data@.len());
    assert(first.styles.len() == first.styles@.len() && first.transforms.len() == first.transforms@.len());
    let at = was.stream_offsets;
    if at.path_tags <= other.path_tags@.len() {
        lemma_moved_place(first.path_tags@, other.path_tags@, joined.path_tags@, at.path_tags as int);
    }
    if at.path_data <= other.path_data@.len() {
        lemma_moved_place(first.path_data@, other.path_data@, joined.path_data@, at.path_data as int);
    }
    if at.draw_tags <= other.draw_tags@.len() {
        lemma_moved_place(first.draw_tags@, other.draw_tags@, joined.draw_tags@, at.draw_tags as int);
    }
    if at.draw_data <= other.draw_data@.len() {
        lemma_moved_place(first.draw_data@, other.draw_data@, joined.draw_data@, at.draw_data as int);
    }
    if at.styles <= other.styles@.len() {
        lemma_moved_place(first.styles@, other.styles@, joined.styles@, at.styles as int);
    }
}

/// An appended patch still names its own resource, and still fills its own word of the draw data: a ramp
/// its color stops, with its extend mode; a glyph run the run with its glyphs; an image the image.
pub proof fn appended_patches_keep_their_targets(
    first: Encoding,
    other: Encoding,
    joined: Encoding,
    moved: Option<MovedTransforms>,
    i: int,
)
    requires
        first.can_append(other),
        first.appended(joined, other, moved),
        moved matches Some(m) ==> m.covers(other),
        0 <= i < other.resources.patches@.len(),
    ensures
        match (other.resources.patches@[i], joined.resources.patches@[first.resources.patches@.len() + i]) {
            (
                Patch::Ramp { draw_data_offset: was, stops: was_stops, extend: was_extend },
                Patch::Ramp { draw_data_offset, stops, extend },
            ) => {
                &&& extend == was_extend
                &&& was <= other.draw_data@.len() ==> same_rest(
                    joined.draw_data@,
                    draw_data_offset as int,
                    other.draw_data@,
                    was as int,
                )
                &&& lies_in(was_stops, other.resources.color_stops@.len()) ==> same_elements(
                    joined.resources.color_stops@,
                    stops,
                    other.resources.color_stops@,
                    was_stops,
                )
            },
            (Patch::GlyphRun { index: was }, Patch::GlyphRun { index }) => {
                &&& joined.resources.glyph_runs@.len() - index == other.resources.glyph_runs@.len() - was
                &&& was < other.resources.glyph_runs@.len() && lies_in(
                    other.resources.glyph_runs@[was as int].glyphs,
                    other.resources.glyphs@.len(),
                ) ==> same_elements(
                    joined.resources.glyphs@,
                    joined.resources.glyph_runs@[index as int].glyphs,
                    other.resources.glyphs@,
                    other.resources.glyph_runs@[was as int].glyphs,
                )
            },
            (
                Patch::Image { image: was_image, draw_data_offset: was },
                Patch::Image { image, draw_data_offset },
            ) => image == was_image && (was <= other.draw_data@.len() ==> same_rest(
                joined.draw_data@,
                draw_data_offset as int,
                other.draw_data@,
                was as int,
            )),
            _ => false,
        },
{
    let was = other.resources.patches@[i];
    let patch = joined.resources.patches@[first.resources.patches@.len() + i];
    assert(was.can_rebase(first.bases()));
    assert(patch == first.moved_patches(other)[i]);
    assert(first.draw_data.len() == first.draw_data@.len());
    match was {
        Patch::Ramp { draw_data_offset, stops, .. } => {
            if draw_data_offset <= other.draw_data@.len() {
                lemma_moved_place(first.draw_data@, other.draw_data@, joined.draw_data@, draw_data_offset as int);
            }
            if lies_in(stops, other.resources.color_stops@.len()) {
                lemma_moved_range(
                    first.resources.color_stops@,
                    other.resources.color_stops@,
                    joined.resources.color_stops@,
                    stops,
                    patch->Ramp_stops,
                );
            }
        },
        Patch::GlyphRun { index } => {
            if index < other.resources.glyph_runs@.len() {
                appended_runs_keep_their_glyphs(first, other, joined, moved, index as int);
            }
        },
        Patch::Image { draw_data_offset, .. } => {
            if draw_data_offset <= other.draw_data@.len() {
                lemma_moved_place(first.draw_data@, other.draw_data@, joined.draw_data@, draw_data_offset as int);
            }
        },
    }
}

/// An appended open clip keeps its parameters, and still reserves its own word of the draw data.
pub proof fn appended_clips_keep_their_words(
    first: Encoding,
    other: Encoding,
    joined: Encoding,
    moved: Option<MovedTransforms>,
    i: int,
)
    requires
        first.can_append(other),
        first.appended(joined, other, moved),
        0 <= i < other.begin_clip_stack@.len(),
    ensures
        ({
            let was = other.begin_clip_stack@[i];
            let clip = joined.begin_clip_stack@[first.begin_clip_stack@.len() + i];
            &&& clip.parameters == was.parameters
            &&& was.layer_idx_slot <= other.draw_data@.len() ==> same_rest(
                joined.draw_data@,
                clip.layer_idx_slot as int,
                other.draw_data@,
                was.layer_idx_slot as int,
            )
        }),
{
    let was = other.begin_clip_stack@[i];
    assert(joined.begin_clip_stack@[first.begin_clip_stack@.len() + i] == first.moved_clips(other)[i]);
    assert(was.layer_idx_slot + first.draw_data@.len() <= usize::MAX);
    if was.layer_idx_slot <= other.draw_data@.len() {
        lemma_moved_place(first.draw_data@, other.draw_data@, joined.draw_data@, was.layer_idx_slot as int);
    }
}

/// What comes next goes on from the second encoding: its pending filter, its flags, and its mask where it
/// has one. The counts add up.
pub proof fn appending_goes_on_from_the_second(
    first: Encoding,
    other: Encoding,
    joined: Encoding,
    moved: Option<MovedTransforms>,
)
    requires
        first.appended(joined, other, moved),
    ensures
        joined.pending_layer_filter == other.pending_layer_filter,
        joined.flags == other.flags,
        other.coverage_mask is Some ==> joined.coverage_mask == other.coverage_mask,
        other.coverage_mask is None ==> joined.coverage_mask == first.coverage_mask,
        joined.n_paths - first.n_paths == other.n_paths,
        joined.n_path_segments - first.n_path_segments == other.n_path_segments,
        joined.n_clips - first.n_clips == other.n_clips,
        joined.n_open_clips - first.n_open_clips == other.n_open_clips,
{
}

/// A copy of an encoding holds everything that the encoding holds.
pub proof fn copies_hold_everything(copy: Encoding, encoding: Encoding)
    requires
        copy.same_as(encoding),
    ensures
        copy.path_tags@ == encoding.path_tags@ && copy.path_data@ == encoding.path_data@,
        copy.draw_tags@ == encoding.draw_tags@ && copy.draw_data@ == encoding.draw_data@,
        copy.transforms@ == encoding.transforms@ && copy.styles@ == encoding.styles@,
        copy.resources.patches@ == encoding.resources.patches@,
        copy.resources.color_stops@ == encoding.resources.color_stops@,
        copy.resources.glyphs@ == encoding.resources.glyphs@,
        copy.resources.glyph_runs@ == encoding.resources.glyph_runs@,
        copy.resources.normalized_coords@ == encoding.resources.normalized_coords@,
        copy.n_paths == encoding.n_paths && copy.n_path_segments == encoding.n_path_segments,
        copy.n_clips == encoding.n_clips && copy.n_open_clips == encoding.n_open_clips,
        copy.flags == encoding.flags && copy.coverage_mask == encoding.coverage_mask,
        copy.pending_layer_filter == encoding.pending_layer_filter,
        copy.clip_filter_stack@ == encoding.clip_filter_stack@,
        copy.begin_clip_stack@ == encoding.begin_clip_stack@,
        copy.layer_filter_effects@ == encoding.layer_filter_effects@,
{
}

/// An encoding that has been cleared holds nothing: no stream has an element, no counter counts, and nothing of what
/// was encoded before shows in what comes next.
pub proof fn cleared_encodings_hold_nothing(encoding: Encoding)
    requires
        encoding.is_clear(),
    ensures
        encoding.path_tags@.len() + encoding.path_data@.len() + encoding.draw_tags@.len() + encoding.draw_data@.len() == 0,
        encoding.transforms@.len() + encoding.styles@.len() == 0,
        encoding.resources.patches@.len() + encoding.resources.color_stops@.len() == 0,
        encoding.resources.glyphs@.len() + encoding.resources.glyph_runs@.len() == 0,
        encoding.resources.normalized_coords@.len() == 0,
        encoding.n_paths + encoding.n_path_segments + encoding.n_clips + encoding.n_open_clips + encoding.flags == 0,
        encoding.coverage_mask is None && encoding.pending_layer_filter is None,
        encoding.clip_filter_stack@.len() + encoding.begin_clip_stack@.len() + encoding.layer_filter_effects@.len() == 0,
{
}

/// The offsets of an encoding are the lengths of its streams.
pub proof fn offsets_are_lengths(encoding: Encoding)
    ensures
        encoding.offsets().path_tags == encoding.path_tags@.len(),
        encoding.offsets().path_data == encoding.path_data@.len(),
        encoding.offsets().draw_tags == encoding.draw_tags@.len(),
        encoding.offsets().draw_data == encoding.draw_data@.len(),
        encoding.offsets().transforms == encoding.transforms@.len(),
        encoding.offsets().styles == encoding.styles@.len(),
{
}

} // verus!
