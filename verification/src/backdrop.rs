//! Propagation of winding numbers along the tile rows of each path.

use crate::config::{BumpAllocators, ConfigUniform};
use crate::layout::{Path, Tile};
use crate::morton::{encoded, morton_encode_2d, no_collisions};
use vstd::prelude::*;

verus! {

impl Path {
    /// Width of the bounding box in tiles.
    pub open spec fn width(self) -> int {
        self.bbox[2] - self.bbox[0]
    }

    /// Height of the bounding box in tiles.
    pub open spec fn height(self) -> int {
        self.bbox[3] - self.bbox[1]
    }

    /// Index of the tile at column `x` and row `y` of the bounding box.
    pub open spec fn tile_index(self, x: int, y: int) -> int {
        self.tiles + encoded(x as u32, y as u32)
    }

    /// The bounding box is not inside out, and all its tiles are among `n` tiles.
    pub open spec fn tiles_within(self, n: nat) -> bool {
        &&& self.width() >= 0
        &&& self.height() >= 0
        &&& forall|x: int, y: int|
            0 <= y < self.height() && (x == 0 || 0 < x < self.width()) ==> #[trigger] self.tile_index(x, y) < n
                && self.tile_index(x, y) <= u32::MAX
    }
}

/// The tiles of a row after its first `n` columns have been summed, and the sum so far.
pub open spec fn row_after(tiles: Seq<Tile>, path: Path, y: int, n: int) -> (Seq<Tile>, int)
    decreases n,
{
    if n <= 1 {
        (tiles, tiles[path.tile_index(0, y)].backdrop as int)
    } else {
        let (before, sum) = row_after(tiles, path, y, n - 1);
        let ix = path.tile_index(n - 1, y);
        let next = sum + before[ix].backdrop;
        (before.update(ix, Tile { backdrop: next as i32, ..before[ix] }), next)
    }
}

/// The sums of the first `n` columns of a row are 32-bit integers.
pub open spec fn row_fits(tiles: Seq<Tile>, path: Path, y: int, n: int) -> bool {
    forall|k: int| 1 < k <= n ==> i32::MIN <= (#[trigger] row_after(tiles, path, y, k)).1 <= i32::MAX
}

/// The tiles after the first `n` rows of a path have been summed.
pub open spec fn rows_after(tiles: Seq<Tile>, path: Path, n: int) -> Seq<Tile>
    decreases n,
{
    if n <= 0 {
        tiles
    } else {
        row_after(rows_after(tiles, path, n - 1), path, n - 1, path.width()).0
    }
}

/// The sums of the first `n` rows of a path are 32-bit integers.
pub open spec fn rows_fit(tiles: Seq<Tile>, path: Path, n: int) -> bool {
    forall|y: int| 0 <= y < n ==> row_fits(#[trigger] rows_after(tiles, path, y), path, y, path.width())
}

/// The tiles after the first `n` paths have been summed.
pub open spec fn paths_after(tiles: Seq<Tile>, paths: Seq<Path>, n: int) -> Seq<Tile>
    decreases n,
{
    if n <= 0 {
        tiles
    } else {
        rows_after(paths_after(tiles, paths, n - 1), paths[n - 1], paths[n - 1].height())
    }
}

/// The sums of the first `n` paths are 32-bit integers.
pub open spec fn paths_fit(tiles: Seq<Tile>, paths: Seq<Path>, n: int) -> bool {
    forall|k: int| 0 <= k < n ==> rows_fit(#[trigger] paths_after(tiles, paths, k), paths[k], paths[k].height())
}

proof fn lemma_row_len(tiles: Seq<Tile>, path: Path, y: int, n: int)
    requires
        path.tiles_within(tiles.len()),
        0 <= y < path.height(),
        n <= path.width(),
    ensures
        row_after(tiles, path, y, n).0.len() == tiles.len(),
    decreases n,
{
    if n > 1 {
        lemma_row_len(tiles, path, y, n - 1);
        assert(path.tile_index(n - 1, y) < tiles.len());
    }
}

fn backdrop_row(tiles: &mut Vec<Tile>, path: &Path, width: u32, y: u32)
    requires
        path.tiles_within(old(tiles)@.len()),
        width == path.width(),
        y < path.height(),
        row_fits(old(tiles)@, *path, y as int, width as int),
    ensures
        final(tiles)@ == row_after(old(tiles)@, *path, y as int, width as int).0,
        final(tiles)@.len() == old(tiles)@.len(),
{
    let ghost start = tiles@;
    let base: u32 = path.tiles;
    let z0: u32 = morton_encode_2d(0, y);
    assert(path.tile_index(0, y as int) < start.len());
    let mut sum: i32 = tiles[(base + z0) as usize].backdrop;
    let mut x: u32 = 1;
    while x < width
        invariant
            1 <= x,
            x <= width || (width == 0 && x == 1),
            width == path.width(),
            y < path.height(),
            base == path.tiles,
            start == old(tiles)@,
            path.tiles_within(start.len()),
            row_fits(start, *path, y as int, width as int),
            tiles@.len() == start.len(),
            tiles@ == row_after(start, *path, y as int, x as int).0,
            sum == row_after(start, *path, y as int, x as int).1,
        decreases width - x,
    {
        let z: u32 = morton_encode_2d(x, y);
        assert(path.tile_index(x as int, y as int) < start.len());
        let ix: usize = (base + z) as usize;
        assert(i32::MIN <= row_after(start, *path, y as int, x as int + 1).1 <= i32::MAX);
        sum = sum + tiles[ix].backdrop;
        let count: u32 = tiles[ix].segment_count_or_ix;
        tiles.set(ix, Tile { backdrop: sum, segment_count_or_ix: count });
        x = x + 1;
    }
    assert(width == 0 ==> row_after(start, *path, y as int, 0).0 == row_after(start, *path, y as int, 1).0);
}

/// Sums the backdrops of each draw object's tiles along their rows.
pub fn backdrop_main(config: &ConfigUniform, _bump: &BumpAllocators, paths: &[Path], tiles: &mut Vec<Tile>)
    requires
        config.layout.n_draw_objects <= paths@.len(),
        forall|k: int|
            0 <= k < config.layout.n_draw_objects ==> (#[trigger] paths@[k]).tiles_within(old(tiles)@.len()),
        paths_fit(old(tiles)@, paths@, config.layout.n_draw_objects as int),
    ensures
        final(tiles)@ == paths_after(old(tiles)@, paths@, config.layout.n_draw_objects as int),
        final(tiles)@.len() == old(tiles)@.len(),
{
    let ghost start = tiles@;
    let n: u32 = config.layout.n_draw_objects;
    let mut k: u32 = 0;
    while k < n
        invariant
            k <= n <= paths@.len(),
            start == old(tiles)@,
            tiles@.len() == start.len(),
            forall|j: int| 0 <= j < n ==> (#[trigger] paths@[j]).tiles_within(start.len()),
            paths_fit(start, paths@, n as int),
            tiles@ == paths_after(start, paths@, k as int),
        decreases n - k,
    {
        let path: Path = paths[k as usize];
        assert(paths@[k as int].tiles_within(start.len()));
        let ghost entry = tiles@;
        assert(rows_fit(paths_after(start, paths@, k as int), paths@[k as int], paths@[k as int].height()));
        let width: u32 = path.bbox[2] - path.bbox[0];
        let height: u32 = path.bbox[3] - path.bbox[1];
        let mut y: u32 = 0;
        while y < height
            invariant
                y <= height,
                width == path.width(),
                height == path.height(),
                path.tiles_within(entry.len()),
                rows_fit(entry, path, height as int),
                tiles@.len() == entry.len(),
                tiles@ == rows_after(entry, path, y as int),
            decreases height - y,
        {
            assert(row_fits(rows_after(entry, path, y as int), path, y as int, path.width()));
            backdrop_row(tiles, &path, width, y);
            y = y + 1;
        }
        k = k + 1;
    }
}

/// Runs the backdrop stage; `_n_wg` is the number of workgroups that the GPU would use.
pub fn backdrop(_n_wg: u32, config: &ConfigUniform, bump: &BumpAllocators, paths: &[Path], tiles: &mut Vec<Tile>)
    requires
        config.layout.n_draw_objects <= paths@.len(),
        forall|k: int|
            0 <= k < config.layout.n_draw_objects ==> (#[trigger] paths@[k]).tiles_within(old(tiles)@.len()),
        paths_fit(old(tiles)@, paths@, config.layout.n_draw_objects as int),
    ensures
        final(tiles)@ == paths_after(old(tiles)@, paths@, config.layout.n_draw_objects as int),
        final(tiles)@.len() == old(tiles)@.len(),
{
    backdrop_main(config, bump, paths, tiles);
}

/// The sum of the backdrops of columns 0 to `x` of a row.
pub open spec fn prefix_sum(tiles: Seq<Tile>, path: Path, y: int, x: int) -> int
    decreases x + 1,
{
    if x < 0 {
        0
    } else {
        prefix_sum(tiles, path, y, x - 1) + tiles[path.tile_index(x, y)].backdrop
    }
}

/// The tile at `ix` is at a column of row `y`.
pub open spec fn in_row(path: Path, y: int, ix: int) -> bool {
    exists|x: int| 0 <= x < path.width() && ix == #[trigger] path.tile_index(x, y)
}

proof fn lemma_indices_differ(path: Path, x0: int, y0: int, x1: int, y1: int)
    requires
        0 <= x0 < 0x1_0000,
        0 <= y0 < 0x1_0000,
        0 <= x1 < 0x1_0000,
        0 <= y1 < 0x1_0000,
        path.tile_index(x0, y0) == path.tile_index(x1, y1),
    ensures
        x0 == x1,
        y0 == y1,
{
    no_collisions(x0 as u32, y0 as u32, x1 as u32, y1 as u32);
}

proof fn lemma_row_prefix(tiles: Seq<Tile>, path: Path, y: int, n: int)
    requires
        path.tiles_within(tiles.len()),
        path.width() <= 0x1_0000,
        path.height() <= 0x1_0000,
        0 <= y < path.height(),
        1 <= n <= path.width(),
        row_fits(tiles, path, y, n),
    ensures
        row_after(tiles, path, y, n).1 == prefix_sum(tiles, path, y, n - 1),
        forall|x: int| 0 <= x < n ==> i32::MIN <= #[trigger] prefix_sum(tiles, path, y, x) <= i32::MAX,
        forall|x: int|
            0 <= x < n ==> row_after(tiles, path, y, n).0[#[trigger] path.tile_index(x, y)] == (Tile {
                backdrop: prefix_sum(tiles, path, y, x) as i32,
                ..tiles[path.tile_index(x, y)]
            }),
        forall|ix: int|
            0 <= ix < tiles.len() && !(exists|x: int| 0 <= x < n && ix == #[trigger] path.tile_index(x, y))
                ==> #[trigger] row_after(tiles, path, y, n).0[ix] == tiles[ix],
    decreases n,
{
    lemma_row_len(tiles, path, y, n);
    if n == 1 {
        let ix = path.tile_index(0, y);
        assert(prefix_sum(tiles, path, y, 0) == prefix_sum(tiles, path, y, -1) + tiles[ix].backdrop);
    } else {
        assert(row_fits(tiles, path, y, n - 1)) by {
            assert forall|k: int| 1 < k <= n - 1 implies i32::MIN <= (#[trigger] row_after(tiles, path, y, k)).1
                <= i32::MAX by {}
        }
        lemma_row_prefix(tiles, path, y, n - 1);
        lemma_row_len(tiles, path, y, n - 1);
        let (before, sum) = row_after(tiles, path, y, n - 1);
        let (after, next) = row_after(tiles, path, y, n);
        let last = path.tile_index(n - 1, y);
        assert(last < tiles.len());
        assert(before[last] == tiles[last]) by {
            if exists|x: int| 0 <= x < n - 1 && last == #[trigger] path.tile_index(x, y) {
                let x = choose|x: int| 0 <= x < n - 1 && last == #[trigger] path.tile_index(x, y);
                lemma_indices_differ(path, x, y, n - 1, y);
            }
        }
        assert forall|x: int| 0 <= x < n implies after[#[trigger] path.tile_index(x, y)] == (Tile {
            backdrop: prefix_sum(tiles, path, y, x) as i32,
            ..tiles[path.tile_index(x, y)]
        }) by {
            assert(path.tile_index(x, y) < tiles.len());
            if x < n - 1 {
                if path.tile_index(x, y) == last {
                    lemma_indices_differ(path, x, y, n - 1, y);
                }
            }
        }
        assert forall|ix: int|
            0 <= ix < tiles.len() && !(exists|x: int| 0 <= x < n && ix == #[trigger] path.tile_index(
                x,
                y,
            )) implies #[trigger] after[ix] == tiles[ix] by {
            assert(ix != last);
            if exists|x: int| 0 <= x < n - 1 && ix == #[trigger] path.tile_index(x, y) {
                let x = choose|x: int| 0 <= x < n - 1 && ix == #[trigger] path.tile_index(x, y);
                assert(0 <= x < n && ix == path.tile_index(x, y));
            }
        }
    }
}

/// Each tile of a path ends up with the sum of the backdrops to its left, itself included.
/// Its segments, and the tiles of other rows and paths, stay as they are.
pub proof fn backdrop_is_prefix_sum(tiles: Seq<Tile>, path: Path, n: int)
    requires
        path.tiles_within(tiles.len()),
        path.width() <= 0x1_0000,
        path.height() <= 0x1_0000,
        0 <= n <= path.height(),
        rows_fit(tiles, path, n),
    ensures
        rows_after(tiles, path, n).len() == tiles.len(),
        forall|x: int, y: int|
            0 <= x < path.width() && 0 <= y < n ==> i32::MIN <= #[trigger] prefix_sum(tiles, path, y, x) <= i32::MAX,
        forall|x: int, y: int|
            0 <= x < path.width() && 0 <= y < n ==> rows_after(tiles, path, n)[#[trigger] path.tile_index(x, y)] == (
            Tile { backdrop: prefix_sum(tiles, path, y, x) as i32, ..tiles[path.tile_index(x, y)] }),
        forall|ix: int|
            0 <= ix < tiles.len() && !(exists|y: int| 0 <= y < n && #[trigger] in_row(path, y, ix))
                ==> #[trigger] rows_after(tiles, path, n)[ix] == tiles[ix],
    decreases n,
{
    if n > 0 {
        assert(rows_fit(tiles, path, n - 1)) by {
            assert forall|y: int| 0 <= y < n - 1 implies row_fits(
                #[trigger] rows_after(tiles, path, y),
                path,
                y,
                path.width(),
            ) by {}
        }
        backdrop_is_prefix_sum(tiles, path, n - 1);
        let y1 = n - 1;
        let before = rows_after(tiles, path, y1);
        assert(row_fits(rows_after(tiles, path, y1), path, y1, path.width()));
        lemma_row_len(before, path, y1, path.width());
        let after = rows_after(tiles, path, n);
        if path.width() >= 1 {
            lemma_row_prefix(before, path, y1, path.width());
            // The rows above do not touch this row.
            assert forall|x: int| 0 <= x < path.width() implies before[#[trigger] path.tile_index(x, y1)]
                == tiles[path.tile_index(x, y1)] by {
                let ix = path.tile_index(x, y1);
                assert(ix < tiles.len());
                if exists|y: int| 0 <= y < y1 && #[trigger] in_row(path, y, ix) {
                    let y = choose|y: int| 0 <= y < y1 && #[trigger] in_row(path, y, ix);
                    let x2 = choose|x2: int| 0 <= x2 < path.width() && ix == #[trigger] path.tile_index(x2, y);
                    lemma_indices_differ(path, x2, y, x, y1);
                }
            }
            lemma_prefix_agrees(before, tiles, path, y1, path.width() - 1);
            assert forall|x: int, y: int| 0 <= x < path.width() && 0 <= y < n implies i32::MIN <= #[trigger] prefix_sum(
                tiles,
                path,
                y,
                x,
            ) <= i32::MAX by {
                if y == y1 {
                    lemma_prefix_agrees(before, tiles, path, y1, x);
                }
            }
            assert forall|x: int, y: int| 0 <= x < path.width() && 0 <= y < n implies after[#[trigger] path.tile_index(
                x,
                y,
            )] == (Tile { backdrop: prefix_sum(tiles, path, y, x) as i32, ..tiles[path.tile_index(x, y)] }) by {
                let ix = path.tile_index(x, y);
                assert(ix < tiles.len());
                if y < y1 {
                    if exists|x2: int| 0 <= x2 < path.width() && ix == #[trigger] path.tile_index(x2, y1) {
                        let x2 = choose|x2: int| 0 <= x2 < path.width() && ix == #[trigger] path.tile_index(x2, y1);
                        lemma_indices_differ(path, x, y, x2, y1);
                    }
                    assert(after[ix] == before[ix]);
                } else {
                    lemma_prefix_agrees(before, tiles, path, y1, x);
                }
            }
        }
        assert forall|ix: int|
            0 <= ix < tiles.len() && !(exists|y: int| 0 <= y < n && #[trigger] in_row(
                path,
                y,
                ix,
            )) implies #[trigger] after[ix] == tiles[ix] by {
            assert(!in_row(path, y1, ix));
            if exists|y: int| 0 <= y < y1 && #[trigger] in_row(path, y, ix) {
                let y = choose|y: int| 0 <= y < y1 && #[trigger] in_row(path, y, ix);
                assert(0 <= y < n && in_row(path, y, ix));
            }
            assert(before[ix] == tiles[ix]);
            if path.width() >= 1 {
                assert(after[ix] == before[ix]);
            }
        }
    }
}

proof fn lemma_prefix_agrees(a: Seq<Tile>, b: Seq<Tile>, path: Path, y: int, x: int)
    requires
        forall|k: int|
            0 <= k <= x ==> a[#[trigger] path.tile_index(k, y)] == b[path.tile_index(k, y)],
    ensures
        prefix_sum(a, path, y, x) == prefix_sum(b, path, y, x),
    decreases x + 1,
{
    if x >= 0 {
        lemma_prefix_agrees(a, b, path, y, x - 1);
        assert(a[path.tile_index(x, y)] == b[path.tile_index(x, y)]);
    }
}

/// The tile at `ix` is one of the path's.
pub open spec fn in_path(path: Path, ix: int) -> bool {
    exists|y: int| 0 <= y < path.height() && #[trigger] in_row(path, y, ix)
}

/// No tile belongs to two of the first `n` paths.
pub open spec fn disjoint_paths(paths: Seq<Path>, n: int) -> bool {
    forall|j: int, k: int, ix: int|
        0 <= j < k < n && #[trigger] in_path(paths[j], ix) ==> !#[trigger] in_path(paths[k], ix)
}

/// Where no tile belongs to two paths, each tile of each path ends up with the sum of the backdrops to
/// its left in its row, itself included. Its segments, and the tiles that belong to no path, stay as
/// they are.
pub proof fn backdrops_are_prefix_sums(tiles: Seq<Tile>, paths: Seq<Path>, n: int)
    requires
        0 <= n <= paths.len(),
        forall|k: int| 0 <= k < n ==> (#[trigger] paths[k]).tiles_within(tiles.len()),
        forall|k: int|
            0 <= k < n ==> (#[trigger] paths[k]).width() <= 0x1_0000 && paths[k].height() <= 0x1_0000,
        disjoint_paths(paths, n),
        paths_fit(tiles, paths, n),
    ensures
        paths_after(tiles, paths, n).len() == tiles.len(),
        forall|k: int, x: int, y: int|
            0 <= k < n && 0 <= x < paths[k].width() && 0 <= y < paths[k].height() ==> {
                let after = paths_after(tiles, paths, n)[#[trigger] paths[k].tile_index(x, y)];
                &&& after.backdrop == prefix_sum(tiles, paths[k], y, x)
                &&& after.segment_count_or_ix == tiles[paths[k].tile_index(x, y)].segment_count_or_ix
            },
        forall|ix: int|
            0 <= ix < tiles.len() && !(exists|k: int| 0 <= k < n && #[trigger] in_path(paths[k], ix))
                ==> #[trigger] paths_after(tiles, paths, n)[ix] == tiles[ix],
    decreases n,
{
    if n > 0 {
        let last = n - 1;
        let path = paths[last];
        assert(paths_fit(tiles, paths, last)) by {
            assert forall|k: int| 0 <= k < last implies rows_fit(
                #[trigger] paths_after(tiles, paths, k),
                paths[k],
                paths[k].height(),
            ) by {}
        }
        backdrops_are_prefix_sums(tiles, paths, last);
        let before = paths_after(tiles, paths, last);
        let after = paths_after(tiles, paths, n);
        assert(path.tiles_within(tiles.len()));
        assert(rows_fit(before, path, path.height()));
        backdrop_is_prefix_sum(before, path, path.height());
        // No earlier path touched the tiles of this one.
        assert forall|x: int, y: int| 0 <= x < path.width() && 0 <= y < path.height() implies before[#[trigger] path.tile_index(
            x,
            y,
        )] == tiles[path.tile_index(x, y)] by {
            let ix = path.tile_index(x, y);
            assert(ix < tiles.len());
            assert(in_row(path, y, ix));
            assert(in_path(path, ix));
        }
        assert forall|k: int, x: int, y: int|
            0 <= k < n && 0 <= x < paths[k].width() && 0 <= y < paths[k].height() implies {
            let tile = after[#[trigger] paths[k].tile_index(x, y)];
            &&& tile.backdrop == prefix_sum(tiles, paths[k], y, x)
            &&& tile.segment_count_or_ix == tiles[paths[k].tile_index(x, y)].segment_count_or_ix
        } by {
            let ix = paths[k].tile_index(x, y);
            assert(paths[k].tiles_within(tiles.len()));
            assert(ix < tiles.len());
            assert(in_row(paths[k], y, ix));
            assert(in_path(paths[k], ix));
            if k < last {
                assert(!in_path(path, ix));
                assert(after[ix] == before[ix]);
            } else {
                lemma_prefix_agrees(before, tiles, path, y, x);
                assert(i32::MIN <= prefix_sum(before, path, y, x) <= i32::MAX);
            }
        }
        assert forall|ix: int|
            0 <= ix < tiles.len() && !(exists|k: int| 0 <= k < n && #[trigger] in_path(
                paths[k],
                ix,
            )) implies #[trigger] after[ix] == tiles[ix] by {
            assert(!in_path(paths[last], ix));
            assert(after[ix] == before[ix]);
            assert(!(exists|k: int| 0 <= k < last && #[trigger] in_path(paths[k], ix)));
        }
    }
}

} // verus!
