//! Skip-ink text decorations: the parts of an underline that glyphs leave visible.
//!
//! Positions along the line are given by their places among all 64-bit numbers (see
//! `float64_place`), so that they can be ordered as integers.

use crate::float::{equal, float_eq, float_gt, greater};
use vstd::prelude::*;

verus! {

/// A closed range of places, from its start to its end.
pub type Range = (i64, i64);

/// A point lies in a range. Points are counted in half places: the odd ones stand for what lies
/// between two neighbouring numbers.
pub open spec fn in_range(range: Range, point: int) -> bool {
    2 * range.0 <= point <= 2 * range.1
}

/// A point lies in one of the ranges.
pub open spec fn covered(ranges: Seq<Range>, point: int) -> bool {
    exists|i: int| 0 <= i < ranges.len() && in_range(#[trigger] ranges[i], point)
}

/// Each range ends where it starts or behind that, and the ranges are in order and do not touch
/// each other.
pub open spec fn separated(ranges: Seq<Range>) -> bool {
    &&& forall|i: int| 0 <= i < ranges.len() ==> (#[trigger] ranges[i]).0 <= ranges[i].1
    &&& forall|i: int, j: int| 0 <= i < j < ranges.len() ==> (#[trigger] ranges[i]).1 < (#[trigger] ranges[j]).0
}

/// Adds a range, and merges it with those that it touches.
pub fn insert_and_merge_range(ranges: &mut Vec<Range>, start: i64, end: i64)
    requires
        separated(old(ranges)@),
        start <= end,
    ensures
        separated(final(ranges)@),
        forall|point: int|
            #![trigger covered(final(ranges)@, point)]
            covered(final(ranges)@, point) == (covered(old(ranges)@, point) || in_range((start, end), point)),
{
    let ghost before = ranges@;
    let n: usize = ranges.len();
    let mut merged: Vec<Range> = Vec::new();
    let mut a: usize = 0;
    while a < n && ranges[a].1 < start
        invariant
            n == ranges.len(),
            ranges@ == before,
            a <= n,
            separated(before),
            merged@ == before.take(a as int),
            forall|i: int| 0 <= i < a ==> (#[trigger] before[i]).1 < start,
        decreases n - a,
    {
        merged.push(ranges[a]);
        assert(before.take(a as int + 1) =~= before.take(a as int).push(before[a as int]));
        a = a + 1;
    }
    let mut new_start: i64 = start;
    let mut new_end: i64 = end;
    let mut b: usize = a;
    while b < n && ranges[b].0 <= end
        invariant
            n == ranges.len(),
            ranges@ == before,
            a <= b <= n,
            start <= end,
            separated(before),
            forall|i: int| a <= i < b ==> (#[trigger] before[i]).0 <= end,
            forall|i: int| 0 <= i < a ==> (#[trigger] before[i]).1 < start,
            a < n ==> before[a as int].1 >= start,
            new_start == (if a < b && before[a as int].0 < start {
                before[a as int].0
            } else {
                start
            }),
            new_end == (if a < b && before[b - 1].1 > end {
                before[b - 1].1
            } else {
                end
            }),
        decreases n - b,
    {
        let r: Range = ranges[b];
        if b > a {
            assert(before[b - 1].1 < before[b as int].0);
            assert(before[a as int].0 < before[b as int].0 && before[a as int].1 <= before[b - 1].1);
        }
        if r.0 < new_start {
            new_start = r.0;
        }
        if r.1 > new_end {
            new_end = r.1;
        }
        b = b + 1;
    }
    let ghost head = merged@;
    merged.push((new_start, new_end));
    let mut c: usize = b;
    assert(before.subrange(b as int, c as int) =~= seq![]);
    while c < n
        invariant
            n == ranges.len(),
            ranges@ == before,
            b <= c <= n,
            merged@ == head.push((new_start, new_end)) + before.subrange(b as int, c as int),
        decreases n - c,
    {
        merged.push(ranges[c]);
        assert(before.subrange(b as int, c as int + 1) =~= before.subrange(b as int, c as int).push(before[c as int]));
        c = c + 1;
    }
    proof {
        let after = merged@;
        assert forall|i: int| 0 <= i < a implies (#[trigger] before[i]).1 < new_start by {
            if a < b {
                assert(before[i].1 < before[a as int].0);
            }
        }
        assert forall|i: int| b <= i < n implies new_end < (#[trigger] before[i]).0 by {
            assert(before[b as int].0 > end);
            if b < i {
                assert(before[b as int].1 < before[i].0);
            }
            if a < b {
                assert(before[b - 1].1 < before[i].0);
            }
        }
        assert forall|i: int| 0 <= i < after.len() implies after[i] == (if i < a {
            before[i]
        } else if i == a {
            (new_start, new_end)
        } else {
            before[i - a - 1 + b]
        }) by {
        }
        assert(separated(after));
        assert forall|point: int|
            #![trigger covered(after, point)]
            covered(after, point) == (covered(before, point) || in_range((start, end), point)) by {
            if covered(before, point) {
                let i = choose|i: int| 0 <= i < before.len() && in_range(#[trigger] before[i], point);
                if i < a {
                    assert(in_range(after[i], point));
                } else if i < b {
                    assert(before[i].0 >= new_start || i == a) by {
                        if i > a {
                            assert(before[a as int].1 < before[i].0);
                        }
                    }
                    assert(before[i].1 <= new_end) by {
                        if i < b - 1 {
                            assert(before[i].1 < before[b - 1].0);
                        }
                    }
                    assert(in_range(after[a as int], point));
                } else {
                    assert(after[i + a + 1 - b] == before[i]);
                    assert(in_range(after[i + a + 1 - b], point));
                }
            }
            if in_range((start, end), point) {
                assert(in_range(after[a as int], point));
            }
            if covered(after, point) {
                let i = choose|i: int| 0 <= i < after.len() && in_range(#[trigger] after[i], point);
                if i < a {
                    assert(in_range(before[i], point));
                } else if i > a {
                    assert(in_range(before[i - a - 1 + b], point));
                } else if !in_range((start, end), point) {
                    if point < 2 * start {
                        assert(a < b);
                        assert(in_range(before[a as int], point));
                    } else {
                        assert(a < b);
                        assert(before[b - 1].0 <= end);
                        assert(in_range(before[b - 1], point));
                    }
                }
            }
        }
    }
    *ranges = merged;
}

/// What is left of `x` to `x1` between the exclusions.
pub open spec fn gaps(x: i64, exclusions: Seq<Range>, x1: i64) -> Seq<Range>
    decreases exclusions.len(),
{
    if exclusions.len() == 0 {
        if x < x1 {
            seq![(x, x1)]
        } else {
            seq![]
        }
    } else {
        (if x < exclusions[0].0 {
            seq![(x, exclusions[0].0)]
        } else {
            seq![]
        }) + gaps(exclusions[0].1, exclusions.skip(1), x1)
    }
}

/// Lists what is left of `x0` to `x1` between the exclusions.
pub fn visible_spans(x0: i64, x1: i64, exclusions: &[Range]) -> (spans: Vec<Range>)
    ensures
        spans@ == gaps(x0, exclusions@, x1),
{
    let mut spans: Vec<Range> = Vec::new();
    let mut current: i64 = x0;
    let mut i: usize = 0;
    assert(exclusions@.skip(0) =~= exclusions@);
    while i < exclusions.len()
        invariant
            i <= exclusions.len(),
            spans@ + gaps(current, exclusions@.skip(i as int), x1) == gaps(x0, exclusions@, x1),
        decreases exclusions.len() - i,
    {
        let (start, end) = exclusions[i];
        let ghost rest = exclusions@.skip(i as int);
        let ghost sofar = spans@;
        assert(rest.skip(1) =~= exclusions@.skip(i as int + 1));
        if current < start {
            spans.push((current, start));
        }
        assert(spans@ + gaps(end, rest.skip(1), x1) =~= sofar + gaps(current, rest, x1));
        current = end;
        i = i + 1;
    }
    let ghost sofar = spans@;
    if current < x1 {
        spans.push((current, x1));
    }
    assert(spans@ =~= sofar + gaps(current, exclusions@.skip(i as int), x1));
    spans
}

/// A mark of a glyph on the line, cut off at the ends of the line; nothing where it is empty.
pub open spec fn mark_on_line(mark: Range, x0: i64, x1: i64) -> Option<Range> {
    let start = if mark.0 > x0 {
        mark.0
    } else {
        x0
    };
    let end = if mark.1 < x1 {
        mark.1
    } else {
        x1
    };
    if start < end {
        Some((start, end))
    } else {
        None
    }
}

/// A point lies in what the marks take up on the line.
pub open spec fn marked(marks: Seq<Range>, x0: i64, x1: i64, point: int) -> bool {
    exists|i: int|
        0 <= i < marks.len() && (mark_on_line(#[trigger] marks[i], x0, x1) matches Some(r) && in_range(r, point))
}

/// Lists the parts of a decoration from `x0` to `x1` that the marks of the glyphs leave visible.
pub fn decoration_spans(x0: i64, x1: i64, marks: &[Range]) -> (spans: Vec<Range>)
    ensures
        exists|exclusions: Seq<Range>|
            {
                &&& #[trigger] separated(exclusions)
                &&& forall|point: int|
                    #![trigger covered(exclusions, point)]
                    covered(exclusions, point) == marked(marks@, x0, x1, point)
                &&& forall|i: int|
                    0 <= i < exclusions.len() ==> x0 <= (#[trigger] exclusions[i]).0 && exclusions[i].1 <= x1
                &&& spans@ == gaps(x0, exclusions, x1)
            },
{
    let mut exclusions: Vec<Range> = Vec::new();
    let mut i: usize = 0;
    while i < marks.len()
        invariant
            i <= marks.len(),
            separated(exclusions@),
            forall|point: int|
                #![trigger covered(exclusions@, point)]
                covered(exclusions@, point) == marked(marks@.take(i as int), x0, x1, point),
        decreases marks.len() - i,
    {
        let (start, end) = marks[i];
        let from: i64 = if start > x0 {
            start
        } else {
            x0
        };
        let to: i64 = if end < x1 {
            end
        } else {
            x1
        };
        let ghost before = exclusions@;
        if from < to {
            insert_and_merge_range(&mut exclusions, from, to);
        }
        assert forall|point: int|
            #![trigger covered(exclusions@, point)]
            covered(exclusions@, point) == marked(marks@.take(i as int + 1), x0, x1, point) by {
            lemma_marked_step(marks@, x0, x1, i as int, point);
            assert(covered(before, point) == marked(marks@.take(i as int), x0, x1, point));
        }
        i = i + 1;
    }
    assert(marks@.take(i as int) =~= marks@);
    proof {
        assert forall|k: int| 0 <= k < exclusions@.len() implies x0 <= (#[trigger] exclusions@[k]).0
            && exclusions@[k].1 <= x1 by {
            let r = exclusions@[k];
            assert(in_range(r, 2 * r.0) && in_range(r, 2 * r.1));
            assert(covered(exclusions@, 2 * r.0) && covered(exclusions@, 2 * r.1));
        }
    }
    visible_spans(x0, x1, exclusions.as_slice())
}

proof fn lemma_marked_step(marks: Seq<Range>, x0: i64, x1: i64, n: int, point: int)
    requires
        0 <= n < marks.len(),
    ensures
        marked(marks.take(n + 1), x0, x1, point) == (marked(marks.take(n), x0, x1, point) || (mark_on_line(
            marks[n],
            x0,
            x1,
        ) matches Some(r) && in_range(r, point))),
{
    let more = marks.take(n + 1);
    let less = marks.take(n);
    if marked(less, x0, x1, point) {
        let i = choose|i: int|
            0 <= i < less.len() && (mark_on_line(#[trigger] less[i], x0, x1) matches Some(r) && in_range(r, point));
        assert(more[i] == less[i]);
    }
    if mark_on_line(marks[n], x0, x1) matches Some(r) && in_range(r, point) {
        assert(more[n] == marks[n]);
    }
    if marked(more, x0, x1, point) {
        let i = choose|i: int|
            0 <= i < more.len() && (mark_on_line(#[trigger] more[i], x0, x1) matches Some(r) && in_range(r, point));
        if i < n {
            assert(less[i] == more[i]);
        }
    }
}

/// Between the ends of the line, every point is visible or excluded, and no span reaches into the
/// inside of an exclusion.
pub proof fn spans_are_what_is_left(x0: i64, x1: i64, exclusions: Seq<Range>, point: int)
    requires
        separated(exclusions),
        forall|i: int| 0 <= i < exclusions.len() ==> x0 <= (#[trigger] exclusions[i]).0 && exclusions[i].1 <= x1,
        2 * x0 < point < 2 * x1,
    ensures
        covered(gaps(x0, exclusions, x1), point) || covered(exclusions, point),
        forall|i: int|
            0 <= i < exclusions.len() && 2 * (#[trigger] exclusions[i]).0 < point < 2 * exclusions[i].1 ==> !covered(
                gaps(x0, exclusions, x1),
                point,
            ),
    decreases exclusions.len(),
{
    let all = gaps(x0, exclusions, x1);
    if exclusions.len() == 0 {
        assert(in_range(all[0], point));
    } else {
        let first = exclusions[0];
        let rest = exclusions.skip(1);
        let tail = gaps(first.1, rest, x1);
        let head = if x0 < first.0 {
            seq![(x0, first.0)]
        } else {
            seq![]
        };
        assert(all == head + tail);
        assert forall|i: int| 0 <= i < rest.len() implies first.1 <= (#[trigger] rest[i]).0 && rest[i].1 <= x1 by {
            assert(rest[i] == exclusions[i + 1]);
        }
        assert(separated(rest)) by {
            assert forall|i: int| 0 <= i < rest.len() implies (#[trigger] rest[i]).0 <= rest[i].1 by {
                assert(rest[i] == exclusions[i + 1]);
            }
            assert forall|i: int, j: int| 0 <= i < j < rest.len() implies (#[trigger] rest[i]).1 < (
            #[trigger] rest[j]).0 by {
                assert(rest[i] == exclusions[i + 1] && rest[j] == exclusions[j + 1]);
            }
        }
        lemma_gaps_start(first.1, rest, x1);
        if point <= 2 * first.1 {
            // Before the end of the first exclusion only its own gap counts.
            if point < 2 * first.0 {
                assert(in_range(head[0], point));
                assert(in_range(all[0], point));
            } else {
                assert(in_range(exclusions[0], point));
            }
            assert forall|i: int|
                0 <= i < exclusions.len() && 2 * (#[trigger] exclusions[i]).0 < point < 2
                    * exclusions[i].1 implies !covered(all, point) by {
                if i > 0 {
                    assert(exclusions[0].1 < exclusions[i].0);
                }
                assert forall|k: int| 0 <= k < all.len() implies !in_range(#[trigger] all[k], point) by {
                    if k >= head.len() {
                        assert(all[k] == tail[k - head.len()]);
                    }
                }
            }
        } else {
            spans_are_what_is_left(first.1, x1, rest, point);
            if covered(tail, point) {
                let k = choose|k: int| 0 <= k < tail.len() && in_range(#[trigger] tail[k], point);
                assert(all[k + head.len()] == tail[k]);
            }
            if covered(rest, point) {
                let k = choose|k: int| 0 <= k < rest.len() && in_range(#[trigger] rest[k], point);
                assert(exclusions[k + 1] == rest[k]);
            }
            assert forall|i: int|
                0 <= i < exclusions.len() && 2 * (#[trigger] exclusions[i]).0 < point < 2
                    * exclusions[i].1 implies !covered(all, point) by {
                assert(i > 0);
                assert(rest[i - 1] == exclusions[i]);
                assert(!covered(tail, point));
                assert forall|k: int| 0 <= k < all.len() implies !in_range(#[trigger] all[k], point) by {
                    if k >= head.len() {
                        assert(all[k] == tail[k - head.len()]);
                        assert(!in_range(tail[k - head.len()], point));
                    }
                }
            }
        }
    }
}

proof fn lemma_gaps_start(x: i64, exclusions: Seq<Range>, x1: i64)
    requires
        separated(exclusions),
        forall|i: int| 0 <= i < exclusions.len() ==> x <= (#[trigger] exclusions[i]).0,
    ensures
        forall|k: int| 0 <= k < gaps(x, exclusions, x1).len() ==> x <= (#[trigger] gaps(x, exclusions, x1)[k]).0,
    decreases exclusions.len(),
{
    if exclusions.len() > 0 {
        let first = exclusions[0];
        let rest = exclusions.skip(1);
        assert forall|i: int| 0 <= i < rest.len() implies first.1 <= (#[trigger] rest[i]).0 by {
            assert(rest[i] == exclusions[i + 1]);
        }
        assert(separated(rest)) by {
            assert forall|i: int| 0 <= i < rest.len() implies (#[trigger] rest[i]).0 <= rest[i].1 by {
                assert(rest[i] == exclusions[i + 1]);
            }
            assert forall|i: int, j: int| 0 <= i < j < rest.len() implies (#[trigger] rest[i]).1 < (
            #[trigger] rest[j]).0 by {
                assert(rest[i] == exclusions[i + 1] && rest[j] == exclusions[j + 1]);
            }
        }
        lemma_gaps_start(first.1, rest, x1);
        let tail = gaps(first.1, rest, x1);
        let all = gaps(x, exclusions, x1);
        assert forall|k: int| 0 <= k < all.len() implies x <= (#[trigger] all[k]).0 by {
            let h = all.len() - tail.len();
            if k >= h {
                assert(all[k] == tail[k - h]);
            }
        }
    }
}

/// What lies between a lowest and a highest place reaches into the band of the decoration.
pub fn reaches_band(low: i64, high: i64, band: Range) -> (b: bool)
    ensures
        b == (high >= band.0 && low <= band.1),
        low <= high && band.0 <= band.1 ==> (b <==> exists|y: i64|
            low <= y && y <= high && #[trigger] in_range(band, 2 * y)),
{
    proof {
        let y: i64 = if low < band.0 {
            band.0
        } else {
            low
        };
        if high >= band.0 && low <= band.1 && low <= high && band.0 <= band.1 {
            assert(in_range(band, 2 * y));
        }
    }
    !(high < band.0 || low > band.1)
}

/// The least of some places.
pub open spec fn least(places: Seq<i64>) -> i64
    decreases places.len(),
{
    if places.len() <= 1 {
        places[0]
    } else if places.last() < least(places.drop_last()) {
        places.last()
    } else {
        least(places.drop_last())
    }
}

/// The greatest of some places.
pub open spec fn greatest(places: Seq<i64>) -> i64
    decreases places.len(),
{
    if places.len() <= 1 {
        places[0]
    } else if places.last() > greatest(places.drop_last()) {
        places.last()
    } else {
        greatest(places.drop_last())
    }
}

/// Finds the least and the greatest of the places of a segment's control points.
pub fn segment_bounds(places: &[i64]) -> (bounds: Range)
    requires
        places@.len() > 0,
    ensures
        bounds == (least(places@), greatest(places@)),
{
    let mut low: i64 = places[0];
    let mut high: i64 = places[0];
    let mut i: usize = 1;
    assert(places@.take(1)[0] == places@[0]);
    while i < places.len()
        invariant
            1 <= i <= places.len(),
            low == least(places@.take(i as int)),
            high == greatest(places@.take(i as int)),
        decreases places.len() - i,
    {
        let x: i64 = places[i];
        assert(places@.take(i as int + 1).drop_last() =~= places@.take(i as int));
        if x < low {
            low = x;
        }
        if x > high {
            high = x;
        }
        i = i + 1;
    }
    assert(places@.take(i as int) =~= places@);
    (low, high)
}

/// An extent with a point in it.
pub open spec fn with_point(extent: Range, x: i64) -> Range {
    (
        if x < extent.0 {
            x
        } else {
            extent.0
        },
        if x > extent.1 {
            x
        } else {
            extent.1
        },
    )
}

/// An extent with the first `n` crossings in it.
pub open spec fn with_crossings(extent: Range, crossings: Seq<i64>, n: int) -> Range
    decreases n,
{
    if n <= 0 {
        extent
    } else {
        with_point(with_crossings(extent, crossings, n - 1), crossings[n - 1])
    }
}

/// An extent with an end of a segment in it, if the end lies in the band.
pub open spec fn with_end(extent: Range, end: (i64, i64), band: Range) -> Range {
    if band.0 <= end.1 <= band.1 {
        with_point(extent, end.0)
    } else {
        extent
    }
}

fn add_point(extent: Range, x: i64) -> (r: Range)
    ensures
        r == with_point(extent, x),
{
    (
        if x < extent.0 {
            x
        } else {
            extent.0
        },
        if x > extent.1 {
            x
        } else {
            extent.1
        },
    )
}

/// Widens the extent of a glyph in the band by one of its segments: by the places at which the segment
/// crosses the edges of the band, and by those of its ends that lie in the band.
pub fn expand_rect_with_segment(
    extent: Range,
    band: Range,
    crossings: &[i64],
    start: (i64, i64),
    end: (i64, i64),
) -> (r: Range)
    ensures
        r == with_end(
            with_end(with_crossings(extent, crossings@, crossings@.len() as int), start, band),
            end,
            band,
        ),
{
    let mut r: Range = extent;
    let mut i: usize = 0;
    while i < crossings.len()
        invariant
            i <= crossings.len(),
            r == with_crossings(extent, crossings@, i as int),
        decreases crossings.len() - i,
    {
        r = add_point(r, crossings[i]);
        i = i + 1;
    }
    if band.0 <= start.1 && start.1 <= band.1 {
        r = add_point(r, start.0);
    }
    if band.0 <= end.1 && end.1 <= band.1 {
        r = add_point(r, end.0);
    }
    r
}

/// The extent of a glyph only grows, and holds every crossing.
pub proof fn extent_holds_crossings(extent: Range, crossings: Seq<i64>, n: int)
    requires
        0 <= n <= crossings.len(),
    ensures
        with_crossings(extent, crossings, n).0 <= extent.0,
        extent.1 <= with_crossings(extent, crossings, n).1,
        forall|i: int|
            0 <= i < n ==> with_crossings(extent, crossings, n).0 <= #[trigger] crossings[i] <= with_crossings(
                extent,
                crossings,
                n,
            ).1,
    decreases n,
{
    if n > 0 {
        extent_holds_crossings(extent, crossings, n - 1);
    }
}

/// Outlines of a run are hinted under a uniform positive scale without skew: the matrix holds the
/// same positive number on its diagonal, and zeros beside it.
pub open spec fn hints_under(matrix: [u32; 4]) -> bool {
    &&& equal(matrix[0], matrix[3])
    &&& equal(matrix[1], 0)
    &&& equal(matrix[2], 0)
    &&& greater(matrix[0], 0)
}

/// Whether outlines of a run can be hinted under the matrix of its transform.
pub fn can_hint(matrix: [u32; 4]) -> (b: bool)
    ensures
        b == hints_under(matrix),
{
    float_eq(matrix[0], matrix[3]) && float_eq(matrix[1], 0) && float_eq(matrix[2], 0) && float_gt(matrix[0], 0)
}

} // verus!
