//! Workgroup counts, buffer sizes and the uniform configuration of a render.

use crate::color::Color;
use crate::draw::DrawMonoid;
use crate::layout::{
    BinHeader, Clip, ClipBbox, ClipBic, ClipElement, DrawBbox, Element, Layout, LineSoup, Path, PathBbox, PathMonoid,
    PathSegment, SegmentCount, Tile,
};
use crate::math::{ceil_div, div_ceil, is_power_of_two, max_int, min_int, min_u32, max_u32};
use vstd::arithmetic::power2::pow2;
use vstd::prelude::*;

verus! {

pub const TILE_WIDTH: u32 = 16;

pub const TILE_HEIGHT: u32 = 16;

pub const PATH_REDUCE_WG: u32 = 256;

pub const PATH_BBOX_WG: u32 = 256;

pub const FLATTEN_WG: u32 = 256;

pub const CLIP_REDUCE_WG: u32 = 256;

/// The two's complement negation of `x`.
pub open spec fn negated(x: u32) -> u32 {
    if x == 0 {
        0
    } else {
        (0x1_0000_0000 - x) as u32
    }
}

/// `len` plus what is missing to the next multiple of `alignment`, a power of two.
pub open spec fn aligned_up(len: u32, alignment: u32) -> int {
    len + (negated(len) & ((alignment - 1) as u32))
}

/// Rounds `len` up to a multiple of `alignment`, where `alignment` is a power of two.
pub fn align_up(len: u32, alignment: u32) -> (r: u32)
    requires
        alignment > 0,
        aligned_up(len, alignment) <= u32::MAX,
    ensures
        r == aligned_up(len, alignment),
{
    let neg: u32 = 0u32.wrapping_sub(len);
    assert(neg == negated(len));
    len + (neg & (alignment - 1))
}

/// Aligning to a power of two gives the next multiple of it.
pub proof fn align_up_is_next_multiple(len: u32, alignment: u32)
    requires
        is_power_of_two(alignment as int),
    ensures
        aligned_up(len, alignment) % (alignment as int) == 0,
        len <= aligned_up(len, alignment) < len + alignment,
        aligned_up(len, alignment) == ceil_div(len as int, alignment as int) * alignment,
{
    let k = choose|k: nat| alignment == #[trigger] pow2(k);
    vstd::arithmetic::power2::lemma_pow2_pos(k);
    vstd::arithmetic::power2::lemma2_to64();
    if k >= 32 {
        if k > 32 {
            vstd::arithmetic::power2::lemma_pow2_strictly_increases(32, k);
        }
        assert(false);
    }
    let a = alignment as int;
    let n = negated(len);
    let mask = (alignment - 1) as u32;
    vstd::bits::lemma_u32_low_bits_mask_is_mod(n, k);
    vstd::bits::lemma_low_bits_mask_values();
    assert(vstd::bits::low_bits_mask(k) == mask);
    assert(n & mask == n % alignment);
    let x = len as int;
    vstd::arithmetic::div_mod::lemma_fundamental_div_mod(x, a);
    vstd::arithmetic::div_mod::lemma_mod_bound(x, a);
    let q = x / a;
    let r = x % a;
    if x == 0 {
        assert(n % alignment == 0) by {
            vstd::arithmetic::div_mod::lemma_small_mod(0, alignment as nat);
        }
        assert(r == 0 && q == 0) by {
            vstd::arithmetic::div_mod::lemma_small_mod(0, alignment as nat);
            vstd::arithmetic::div_mod::lemma_basic_div(0, a);
        }
    } else {
        // 2^32 is a multiple of the alignment.
        vstd::arithmetic::power2::lemma_pow2_adds(k, (32 - k) as nat);
        let m = pow2((32 - k) as nat) as int;
        assert(n == a * m - (a * q + r));
        if r == 0 {
            assert(n == a * (m - q) + 0) by (nonlinear_arith)
                requires
                    n == a * m - (a * q + r),
                    r == 0,
            ;
            vstd::arithmetic::div_mod::lemma_fundamental_div_mod_converse(n as int, a, m - q, 0);
        } else {
            assert(n == a * (m - q - 1) + (a - r)) by (nonlinear_arith)
                requires
                    n == a * m - (a * q + r),
            ;
            vstd::arithmetic::div_mod::lemma_fundamental_div_mod_converse(n as int, a, m - q - 1, a - r);
        }
    }
    let up = aligned_up(len, alignment);
    if r == 0 {
        assert(up == a * q);
        vstd::arithmetic::div_mod::lemma_fundamental_div_mod_converse(up, a, q, 0);
        vstd::arithmetic::div_mod::lemma_fundamental_div_mod_converse(x + a - 1, a, q, a - 1);
    } else {
        assert(up == a * (q + 1)) by (nonlinear_arith)
            requires
                up == x + (a - r),
                x == a * q + r,
        ;
        vstd::arithmetic::div_mod::lemma_fundamental_div_mod_converse(up, a, q + 1, 0);
        assert(x + a - 1 == a * (q + 1) + (r - 1)) by (nonlinear_arith)
            requires
                x == a * q + r,
        ;
        vstd::arithmetic::div_mod::lemma_fundamental_div_mod_converse(x + a - 1, a, q + 1, r - 1);
    }
    assert(ceil_div(x, a) * a == up) by (nonlinear_arith)
        requires
            (r == 0 && up == a * q && ceil_div(x, a) == q) || (r != 0 && up == a * (q + 1) && ceil_div(x, a) == q + 1),
    ;
}

/// Counters for tracking dynamic allocation on the GPU.
#[derive(Clone, Copy, Debug, Default, PartialEq, Eq, Structural)]
pub struct BumpAllocators {
    pub failed: u32,
    // Final needed dynamic size of the buffers. If any of these are larger
    // than the corresponding `_size` element reallocation needs to occur.
    pub binning: u32,
    pub ptcl: u32,
    pub tile: u32,
    pub seg_counts: u32,
    pub segments: u32,
    pub blend: u32,
    pub lines: u32,
    /// Count of tiles with a non-empty command list.
    pub active_tiles: u32,
}

impl Element for BumpAllocators {
    open spec fn spec_stride() -> u32 {
        36
    }

    fn stride() -> (s: u32) {
        36
    }
}

/// Memory that the bump-allocated buffers take.
#[derive(Default)]
pub struct BumpAllocatorMemory {
    pub total: u32,
    pub binning: BufferSize<u32>,
    pub ptcl: BufferSize<u32>,
    pub tile: BufferSize<Tile>,
    pub seg_counts: BufferSize<SegmentCount>,
    pub segments: BufferSize<PathSegment>,
    pub lines: BufferSize<LineSoup>,
}

/// A count of elements, or one element where the count is zero.
pub open spec fn at_least_one(n: int) -> int {
    max_int(n, 1)
}

impl BumpAllocators {
    /// Bytes that the six buffers of the memory report take together.
    pub open spec fn memory_total(self) -> int {
        at_least_one(self.binning as int) * 4 + at_least_one(self.ptcl as int) * 4 + at_least_one(self.tile as int) * 8
            + at_least_one(self.seg_counts as int) * 8 + at_least_one(self.segments as int) * 24 + at_least_one(
            self.lines as int,
        ) * 24
    }

    /// Reports the memory that the counted allocations take.
    pub fn memory(&self) -> (m: BumpAllocatorMemory)
        requires
            self.memory_total() <= u32::MAX,
        ensures
            m.total == self.memory_total(),
            m.binning@ == at_least_one(self.binning as int),
            m.ptcl@ == at_least_one(self.ptcl as int),
            m.tile@ == at_least_one(self.tile as int),
            m.seg_counts@ == at_least_one(self.seg_counts as int),
            m.segments@ == at_least_one(self.segments as int),
            m.lines@ == at_least_one(self.lines as int),
    {
        let binning: BufferSize<u32> = BufferSize::new(self.binning);
        let ptcl: BufferSize<u32> = BufferSize::new(self.ptcl);
        let tile: BufferSize<Tile> = BufferSize::new(self.tile);
        let seg_counts: BufferSize<SegmentCount> = BufferSize::new(self.seg_counts);
        let segments: BufferSize<PathSegment> = BufferSize::new(self.segments);
        let lines: BufferSize<LineSoup> = BufferSize::new(self.lines);
        BumpAllocatorMemory {
            total: binning.size_in_bytes() + ptcl.size_in_bytes() + tile.size_in_bytes() + seg_counts.size_in_bytes()
                + segments.size_in_bytes() + lines.size_in_bytes(),
            binning,
            ptcl,
            tile,
            seg_counts,
            segments,
            lines,
        }
    }
}

/// Storage of indirect dispatch size values.
#[derive(Clone, Copy, Debug, Default, PartialEq, Eq, Structural)]
pub struct IndirectCount {
    pub count_x: u32,
    pub count_y: u32,
    pub count_z: u32,
    pub pad0: u32,
}

impl Element for IndirectCount {
    open spec fn spec_stride() -> u32 {
        16
    }

    fn stride() -> (s: u32) {
        16
    }
}

/// Stage indices into the multi-entry indirect dispatch buffer.
pub const STAGE_PATHTAG_REDUCE: u32 = 0;

pub const STAGE_PATHTAG_REDUCE2: u32 = 1;

pub const STAGE_PATHTAG_SCAN1: u32 = 2;

pub const STAGE_PATHTAG_SCAN: u32 = 3;

pub const STAGE_PATHTAG_SCAN_LARGE: u32 = 4;

pub const STAGE_BBOX_CLEAR: u32 = 5;

pub const STAGE_FLATTEN: u32 = 6;

pub const STAGE_DRAW_REDUCE: u32 = 7;

pub const STAGE_DRAW_LEAF: u32 = 8;

pub const STAGE_CLIP_REDUCE: u32 = 9;

pub const STAGE_CLIP_LEAF: u32 = 10;

pub const STAGE_BINNING: u32 = 11;

pub const STAGE_TILE_ALLOC: u32 = 12;

pub const STAGE_PATH_COUNT_SETUP: u32 = 13;

pub const STAGE_PATH_COUNT: u32 = 14;

pub const STAGE_BACKDROP: u32 = 15;

pub const STAGE_COARSE: u32 = 16;

pub const STAGE_PATH_TILING_SETUP: u32 = 17;

pub const STAGE_PATH_TILING: u32 = 18;

pub const STAGE_FINE: u32 = 19;

pub const N_INDIRECT_STAGES: u32 = 20;

/// GPU-uploadable workgroup counts for indirect dispatch, one row of
/// `x, y, z, 0` for each stage.
#[derive(Clone, Copy, Debug)]
pub struct WorkgroupCountsGpu {
    pub entries: [[u32; 4]; 20],
}

/// Uniform render configuration data used by all GPU stages.
#[derive(Clone, Copy, Debug, Default, PartialEq, Eq, Structural)]
pub struct ConfigUniform {
    /// Width of the scene in tiles.
    pub width_in_tiles: u32,
    /// Height of the scene in tiles.
    pub height_in_tiles: u32,
    /// Width of the target in pixels.
    pub target_width: u32,
    /// Height of the target in pixels.
    pub target_height: u32,
    /// The base background color applied to the target before any blends.
    pub base_color: u32,
    /// Layout of packed scene data.
    pub layout: Layout,
    /// Size of line soup buffer allocation (in [`LineSoup`]s)
    pub lines_size: u32,
    /// Size of binning buffer allocation (in `u32`s).
    pub binning_size: u32,
    /// Size of tile buffer allocation (in [`Tile`]s).
    pub tiles_size: u32,
    /// Size of segment count buffer allocation (in [`SegmentCount`]s).
    pub seg_counts_size: u32,
    /// Size of segment buffer allocation (in [`PathSegment`]s).
    pub segments_size: u32,
    /// Size of blend spill buffer (in `u32` pixels).
    pub blend_size: u32,
    /// Size of per-tile command list buffer allocation (in `u32`s).
    pub ptcl_size: u32,
    /// Y-offset for fine pass row splitting (0 = full dispatch).
    pub tile_y_offset: u32,
    /// Global thread index offset for chunked flatten dispatches (0 = default).
    /// Must be a multiple of the flatten workgroup size (256).
    pub flatten_thread_base: u32,
    /// Non-zero if the encoding has a coverage mask.
    pub mask_active: u32,
}

impl Element for ConfigUniform {
    open spec fn spec_stride() -> u32 {
        100
    }

    fn stride() -> (s: u32) {
        100
    }
}

/// Type alias for a workgroup size.
pub type WorkgroupSize = (u32, u32, u32);

/// A one-dimensional dispatch of `n` workgroups.
pub open spec fn row_of(n: int) -> WorkgroupSize {
    (n as u32, 1, 1)
}

/// Computed sizes for all dispatches.
#[derive(Copy, Clone, Debug, Default)]
pub struct WorkgroupCounts {
    pub use_large_path_scan: bool,
    pub path_reduce: WorkgroupSize,
    pub path_reduce2: WorkgroupSize,
    pub path_scan1: WorkgroupSize,
    pub path_scan: WorkgroupSize,
    pub bbox_clear: WorkgroupSize,
    pub flatten: WorkgroupSize,
    pub draw_reduce: WorkgroupSize,
    pub draw_leaf: WorkgroupSize,
    pub clip_reduce: WorkgroupSize,
    pub clip_leaf: WorkgroupSize,
    pub binning: WorkgroupSize,
    pub tile_alloc: WorkgroupSize,
    pub path_count_setup: WorkgroupSize,
    // Note: `path_count` must use an indirect dispatch
    pub backdrop: WorkgroupSize,
    pub coarse: WorkgroupSize,
    pub path_tiling_setup: WorkgroupSize,
    // Note: `path_tiling` must use an indirect dispatch
    pub fine: WorkgroupSize,
}

/// Workgroups that read the path tags, four tags to a thread.
pub open spec fn path_tag_workgroups(n_path_tags: int) -> int {
    ceil_div(n_path_tags, 4 * PATH_REDUCE_WG)
}

/// More first-level workgroups than one second-level workgroup can reduce.
pub open spec fn needs_large_scan(n_path_tags: int) -> bool {
    path_tag_workgroups(n_path_tags) > PATH_REDUCE_WG
}

/// The sums of the first level, padded to whole second-level workgroups where those are used.
pub open spec fn reduced_len(path_tag_wgs: int, large: bool) -> int {
    if large {
        ceil_div(path_tag_wgs, PATH_REDUCE_WG as int) * PATH_REDUCE_WG
    } else {
        path_tag_wgs
    }
}

/// The dispatch sizes of a scene of `layout` on a target of that many tiles.
pub open spec fn workgroup_counts_of(
    layout: Layout,
    width_in_tiles: u32,
    height_in_tiles: u32,
    n_path_tags: u32,
) -> WorkgroupCounts {
    let tag_wgs = path_tag_workgroups(n_path_tags as int);
    let large = needs_large_scan(n_path_tags as int);
    let draw_wgs = ceil_div(layout.n_draw_objects as int, PATH_BBOX_WG as int);
    let monoid_wgs = min_int(draw_wgs, PATH_BBOX_WG as int);
    let path_wgs = ceil_div(layout.n_paths as int, PATH_BBOX_WG as int);
    WorkgroupCounts {
        use_large_path_scan: large,
        path_reduce: row_of(tag_wgs),
        path_reduce2: row_of(PATH_REDUCE_WG as int),
        path_scan1: row_of(reduced_len(tag_wgs, large) / PATH_REDUCE_WG as int),
        path_scan: row_of(tag_wgs),
        bbox_clear: row_of(draw_wgs),
        flatten: row_of(ceil_div(n_path_tags as int, FLATTEN_WG as int)),
        draw_reduce: row_of(monoid_wgs),
        draw_leaf: row_of(monoid_wgs),
        clip_reduce: row_of(max_int(layout.n_clips - 1, 0) / CLIP_REDUCE_WG as int),
        clip_leaf: row_of(ceil_div(layout.n_clips as int, CLIP_REDUCE_WG as int)),
        binning: row_of(draw_wgs),
        tile_alloc: row_of(path_wgs),
        path_count_setup: (1, 1, 1),
        backdrop: row_of(path_wgs),
        coarse: (
            ceil_div(width_in_tiles as int, 16) as u32,
            ceil_div(height_in_tiles as int, 16) as u32,
            1,
        ),
        path_tiling_setup: (1, 1, 1),
        fine: (width_in_tiles, height_in_tiles, 1),
    }
}

proof fn lemma_power_of_two_workgroups()
    ensures
        is_power_of_two(256),
        is_power_of_two(1024),
{
    vstd::arithmetic::power2::lemma2_to64();
    assert(pow2(8) == 256);
    assert(pow2(10) == 1024);
}

impl WorkgroupCounts {
    /// Computes the dispatch sizes.
    pub fn new(layout: &Layout, width_in_tiles: u32, height_in_tiles: u32, n_path_tags: u32) -> (wc: Self)
        requires
            n_path_tags <= 0xffff_fc00,
        ensures
            wc == workgroup_counts_of(*layout, width_in_tiles, height_in_tiles, n_path_tags),
    {
        let n_paths: u32 = layout.n_paths;
        let n_draw_objects: u32 = layout.n_draw_objects;
        let n_clips: u32 = layout.n_clips;
        proof {
            lemma_power_of_two_workgroups();
            align_up_is_next_multiple(n_path_tags, 1024);
            assert(aligned_up(n_path_tags, 1024) <= 0xffff_fc00);
        }
        let path_tag_padded: u32 = align_up(n_path_tags, 4 * PATH_REDUCE_WG);
        let path_tag_wgs: u32 = path_tag_padded / (4 * PATH_REDUCE_WG);
        assert(path_tag_wgs == path_tag_workgroups(n_path_tags as int));
        let use_large_path_scan: bool = path_tag_wgs > PATH_REDUCE_WG;
        proof {
            align_up_is_next_multiple(path_tag_wgs, 256);
        }
        let reduced_size: u32 = if use_large_path_scan {
            align_up(path_tag_wgs, PATH_REDUCE_WG)
        } else {
            path_tag_wgs
        };
        let draw_object_wgs: u32 = div_ceil(n_draw_objects, PATH_BBOX_WG);
        let draw_monoid_wgs: u32 = min_u32(draw_object_wgs, PATH_BBOX_WG);
        let flatten_wgs: u32 = div_ceil(n_path_tags, FLATTEN_WG);
        let clip_reduce_wgs: u32 = n_clips.saturating_sub(1) / CLIP_REDUCE_WG;
        let clip_wgs: u32 = div_ceil(n_clips, CLIP_REDUCE_WG);
        let path_wgs: u32 = div_ceil(n_paths, PATH_BBOX_WG);
        let width_in_bins: u32 = div_ceil(width_in_tiles, 16);
        let height_in_bins: u32 = div_ceil(height_in_tiles, 16);
        Self {
            use_large_path_scan,
            path_reduce: (path_tag_wgs, 1, 1),
            path_reduce2: (PATH_REDUCE_WG, 1, 1),
            path_scan1: (reduced_size / PATH_REDUCE_WG, 1, 1),
            path_scan: (path_tag_wgs, 1, 1),
            bbox_clear: (draw_object_wgs, 1, 1),
            flatten: (flatten_wgs, 1, 1),
            draw_reduce: (draw_monoid_wgs, 1, 1),
            draw_leaf: (draw_monoid_wgs, 1, 1),
            clip_reduce: (clip_reduce_wgs, 1, 1),
            clip_leaf: (clip_wgs, 1, 1),
            binning: (draw_object_wgs, 1, 1),
            tile_alloc: (path_wgs, 1, 1),
            path_count_setup: (1, 1, 1),
            backdrop: (path_wgs, 1, 1),
            coarse: (width_in_bins, height_in_bins, 1),
            path_tiling_setup: (1, 1, 1),
            fine: (width_in_tiles, height_in_tiles, 1),
        }
    }
}

/// The dispatch that the indirect buffer holds for `stage`: nothing for a stage that
/// does not run, and for the two stages whose counts the GPU writes.
pub open spec fn indirect_entry(wc: WorkgroupCounts, stage: int) -> WorkgroupSize {
    if stage == STAGE_PATHTAG_REDUCE {
        wc.path_reduce
    } else if stage == STAGE_PATHTAG_REDUCE2 && wc.use_large_path_scan {
        wc.path_reduce2
    } else if stage == STAGE_PATHTAG_SCAN1 && wc.use_large_path_scan {
        wc.path_scan1
    } else if stage == STAGE_PATHTAG_SCAN && !wc.use_large_path_scan {
        wc.path_scan
    } else if stage == STAGE_PATHTAG_SCAN_LARGE && wc.use_large_path_scan {
        wc.path_scan
    } else if stage == STAGE_BBOX_CLEAR {
        wc.bbox_clear
    } else if stage == STAGE_FLATTEN {
        wc.flatten
    } else if stage == STAGE_DRAW_REDUCE {
        wc.draw_reduce
    } else if stage == STAGE_DRAW_LEAF {
        wc.draw_leaf
    } else if stage == STAGE_CLIP_REDUCE {
        wc.clip_reduce
    } else if stage == STAGE_CLIP_LEAF {
        wc.clip_leaf
    } else if stage == STAGE_BINNING {
        wc.binning
    } else if stage == STAGE_TILE_ALLOC {
        wc.tile_alloc
    } else if stage == STAGE_PATH_COUNT_SETUP {
        wc.path_count_setup
    } else if stage == STAGE_BACKDROP {
        wc.backdrop
    } else if stage == STAGE_COARSE {
        wc.coarse
    } else if stage == STAGE_PATH_TILING_SETUP {
        wc.path_tiling_setup
    } else if stage == STAGE_FINE {
        wc.fine
    } else {
        (0, 0, 0)
    }
}

fn four_words(size: WorkgroupSize) -> (row: [u32; 4])
    ensures
        row@ == seq![size.0, size.1, size.2, 0u32],
{
    let row: [u32; 4] = [size.0, size.1, size.2, 0];
    assert(row@ =~= seq![size.0, size.1, size.2, 0u32]);
    row
}

impl WorkgroupCountsGpu {
    /// Row `stage` as the GPU reads it.
    pub open spec fn row(self, stage: int) -> Seq<u32> {
        self.entries@[stage]@
    }

    /// Each row holds the dispatch of its stage.
    pub open spec fn lays_out(self, wc: WorkgroupCounts) -> bool {
        forall|stage: int|
            0 <= stage < N_INDIRECT_STAGES ==> #[trigger] self.row(stage) == seq![
                indirect_entry(wc, stage).0,
                indirect_entry(wc, stage).1,
                indirect_entry(wc, stage).2,
                0u32,
            ]
    }

    /// Lays the counts out for upload.
    pub fn from(wc: &WorkgroupCounts) -> (gpu: Self)
        ensures
            gpu.lays_out(*wc),
    {
        let zero: WorkgroupSize = (0, 0, 0);
        let large: bool = wc.use_large_path_scan;
        let entries: [[u32; 4]; 20] = [
            four_words(wc.path_reduce),
            four_words(if large { wc.path_reduce2 } else { zero }),
            four_words(if large { wc.path_scan1 } else { zero }),
            four_words(if large { zero } else { wc.path_scan }),
            four_words(if large { wc.path_scan } else { zero }),
            four_words(wc.bbox_clear),
            four_words(wc.flatten),
            four_words(wc.draw_reduce),
            four_words(wc.draw_leaf),
            four_words(wc.clip_reduce),
            four_words(wc.clip_leaf),
            four_words(wc.binning),
            four_words(wc.tile_alloc),
            four_words(wc.path_count_setup),
            // Written by path_count_setup
            four_words(zero),
            four_words(wc.backdrop),
            four_words(wc.coarse),
            four_words(wc.path_tiling_setup),
            // Written by path_tiling_setup
            four_words(zero),
            four_words(wc.fine),
        ];
        WorkgroupCountsGpu { entries }
    }

    /// Both uploads hold the same counts.
    pub open spec fn same_as(self, other: WorkgroupCountsGpu) -> bool {
        forall|stage: int| 0 <= stage < N_INDIRECT_STAGES ==> #[trigger] self.row(stage) == other.row(stage)
    }

    /// Whether two uploads hold the same counts.
    pub fn same(&self, other: &Self) -> (b: bool)
        ensures
            b == self.same_as(*other),
    {
        let mut i: usize = 0;
        while i < 20
            invariant
                i <= 20,
                forall|stage: int| 0 <= stage < i ==> #[trigger] self.row(stage) == other.row(stage),
            decreases 20 - i,
        {
            let a: [u32; 4] = self.entries[i];
            let b: [u32; 4] = other.entries[i];
            if a[0] != b[0] || a[1] != b[1] || a[2] != b[2] || a[3] != b[3] {
                assert(self.row(i as int) != other.row(i as int));
                return false;
            }
            assert(self.row(i as int) =~= other.row(i as int));
            i = i + 1;
        }
        true
    }
}

impl PartialEq for WorkgroupCountsGpu {
    fn eq(&self, other: &Self) -> (b: bool) {
        self.same(other)
    }
}

impl vstd::std_specs::cmp::PartialEqSpecImpl for WorkgroupCountsGpu {
    open spec fn obeys_eq_spec() -> bool {
        true
    }

    open spec fn eq_spec(&self, other: &Self) -> bool {
        self.same_as(*other)
    }
}

impl Eq for WorkgroupCountsGpu {

}

impl Default for WorkgroupCountsGpu {
    fn default() -> (r: Self)
        ensures
            forall|stage: int| 0 <= stage < N_INDIRECT_STAGES ==> #[trigger] r.row(stage) == seq![0u32, 0, 0, 0],
    {
        let r = WorkgroupCountsGpu { entries: [[0u32; 4]; 20] };
        assert forall|stage: int| 0 <= stage < N_INDIRECT_STAGES implies #[trigger] r.row(stage) == seq![
            0u32,
            0,
            0,
            0,
        ] by {
            assert(r.row(stage) =~= seq![0u32, 0, 0, 0]);
        }
        r
    }
}

/// Typed buffer size primitive. A buffer can never be empty.
#[derive(Eq, Debug)]
pub struct BufferSize<T: Element> {
    len: u32,
    phantom: std::marker::PhantomData<T>,
}

impl<T: Element> Copy for BufferSize<T> {

}

impl<T: Element> Clone for BufferSize<T> {
    fn clone(&self) -> (r: Self)
        ensures
            r == *self,
    {
        *self
    }
}

impl<T: Element> View for BufferSize<T> {
    type V = int;

    closed spec fn view(&self) -> int {
        self.len as int
    }
}

/// The size of a buffer that nothing has been counted for yet: one element.
impl<T: Element> Default for BufferSize<T> {
    fn default() -> (r: Self)
        ensures
            r@ == 1,
    {
        BufferSize::new(0)
    }
}

impl<T: Element> BufferSize<T> {
    #[verifier::type_invariant]
    spec fn never_empty(self) -> bool {
        self.len >= 1
    }

    /// Bytes that the elements take.
    pub open spec fn bytes(self) -> int {
        T::spec_stride() * self@
    }

    /// A size counts elements.
    pub proof fn size_is_a_count(self)
        ensures
            0 <= self@ <= u32::MAX,
    {
    }

    /// Creates a new buffer size from number of elements.
    ///
    /// Each buffer binding must be large enough to hold at least one element to avoid
    /// triggering validation errors.
    pub fn new(len: u32) -> (r: Self)
        ensures
            r@ == at_least_one(len as int),
            len > 0 ==> r@ == len,
            len == 0 ==> r@ == 1,
    {
        BufferSize { len: if len > 0 { len } else { 1 }, phantom: std::marker::PhantomData }
    }

    /// Creates a new buffer size from size in bytes.
    pub fn from_size_in_bytes(size: u32) -> (r: Self)
        ensures
            r@ == at_least_one(size as int / T::spec_stride() as int),
            size >= T::spec_stride() ==> r.bytes() <= size < r.bytes() + T::spec_stride(),
            size < T::spec_stride() ==> r@ == 1,
    {
        let stride: u32 = T::stride();
        proof {
            let whole = size as int / stride as int;
            vstd::arithmetic::div_mod::lemma_fundamental_div_mod(size as int, stride as int);
            vstd::arithmetic::div_mod::lemma_mod_bound(size as int, stride as int);
            let rest = size as int % stride as int;
            assert(size >= stride ==> whole >= 1) by (nonlinear_arith)
                requires
                    size == stride * whole + rest,
                    rest < stride,
            ;
            if size < stride {
                vstd::arithmetic::div_mod::lemma_basic_div(size as int, stride as int);
            }
        }
        Self::new(size / stride)
    }

    /// Returns the number of elements. The buffer can never be empty.
    pub fn len(self) -> (n: u32)
        ensures
            n == self@,
            n >= 1,
    {
        proof {
            use_type_invariant(&self);
        }
        self.len
    }

    /// Returns the size in bytes.
    pub fn size_in_bytes(self) -> (n: u32)
        requires
            self.bytes() <= u32::MAX,
        ensures
            n == self.bytes(),
    {
        T::stride() * self.len
    }

    /// Returns the size in bytes aligned up to the given value.
    pub fn aligned_in_bytes(self, alignment: u32) -> (n: u32)
        requires
            self.bytes() <= u32::MAX,
            alignment > 0,
            aligned_up(self.bytes() as u32, alignment) <= u32::MAX,
        ensures
            n == aligned_up(self.bytes() as u32, alignment),
    {
        align_up(self.size_in_bytes(), alignment)
    }
}

impl<T: Element> PartialEq for BufferSize<T> {
    fn eq(&self, other: &Self) -> (b: bool) {
        self.len == other.len
    }
}

impl<T: Element> vstd::std_specs::cmp::PartialEqSpecImpl for BufferSize<T> {
    open spec fn obeys_eq_spec() -> bool {
        true
    }

    open spec fn eq_spec(&self, other: &Self) -> bool {
        self@ == other@
    }
}

impl<T: Element> PartialOrd for BufferSize<T> {
    fn partial_cmp(&self, other: &Self) -> (o: Option<std::cmp::Ordering>) {
        self.len.partial_cmp(&other.len)
    }
}

impl<T: Element> vstd::std_specs::cmp::PartialOrdSpecImpl for BufferSize<T> {
    open spec fn obeys_partial_cmp_spec() -> bool {
        true
    }

    open spec fn partial_cmp_spec(&self, other: &Self) -> Option<std::cmp::Ordering> {
        if self@ < other@ {
            Some(std::cmp::Ordering::Less)
        } else if self@ > other@ {
            Some(std::cmp::Ordering::Greater)
        } else {
            Some(std::cmp::Ordering::Equal)
        }
    }
}

/// Computed sizes for all buffers.
#[derive(Copy, Clone, Debug)]
pub struct BufferSizes {
    // Known size buffers
    pub path_reduced: BufferSize<PathMonoid>,
    pub path_reduced2: BufferSize<PathMonoid>,
    pub path_reduced_scan: BufferSize<PathMonoid>,
    pub path_monoids: BufferSize<PathMonoid>,
    pub path_bboxes: BufferSize<PathBbox>,
    pub draw_reduced: BufferSize<DrawMonoid>,
    pub draw_monoids: BufferSize<DrawMonoid>,
    pub info: BufferSize<u32>,
    pub clip_inps: BufferSize<Clip>,
    pub clip_els: BufferSize<ClipElement>,
    pub clip_bics: BufferSize<ClipBic>,
    pub clip_bboxes: BufferSize<ClipBbox>,
    pub draw_bboxes: BufferSize<DrawBbox>,
    pub bump_alloc: BufferSize<BumpAllocators>,
    pub indirect_count: BufferSize<IndirectCount>,
    pub bin_headers: BufferSize<BinHeader>,
    pub paths: BufferSize<Path>,
    // Bump allocated buffers
    pub lines: BufferSize<LineSoup>,
    pub bin_data: BufferSize<u32>,
    pub tiles: BufferSize<Tile>,
    pub seg_counts: BufferSize<SegmentCount>,
    pub segments: BufferSize<PathSegment>,
    pub blend_spill: BufferSize<u32>,
    pub ptcl: BufferSize<u32>,
    /// Compacted list of active tile indices (capacity = width_in_tiles * height_in_tiles).
    pub active_tile_ids: BufferSize<u32>,
}

impl View for BufferSizes {
    type V = Seq<int>;

    /// The lengths of all buffers, in the order of the fields.
    open spec fn view(&self) -> Seq<int> {
        seq![
            self.path_reduced@,
            self.path_reduced2@,
            self.path_reduced_scan@,
            self.path_monoids@,
            self.path_bboxes@,
            self.draw_reduced@,
            self.draw_monoids@,
            self.info@,
            self.clip_inps@,
            self.clip_els@,
            self.clip_bics@,
            self.clip_bboxes@,
            self.draw_bboxes@,
            self.bump_alloc@,
            self.indirect_count@,
            self.bin_headers@,
            self.paths@,
            self.lines@,
            self.bin_data@,
            self.tiles@,
            self.seg_counts@,
            self.segments@,
            self.blend_spill@,
            self.ptcl@,
            self.active_tile_ids@,
        ]
    }
}

/// The sizes of buffers that nothing has been counted for yet: one element each.
impl Default for BufferSizes {
    fn default() -> (r: Self)
        ensures
            r@ == Seq::new(25, |i: int| 1int),
    {
        let r = BufferSizes {
            path_reduced: BufferSize::default(),
            path_reduced2: BufferSize::default(),
            path_reduced_scan: BufferSize::default(),
            path_monoids: BufferSize::default(),
            path_bboxes: BufferSize::default(),
            draw_reduced: BufferSize::default(),
            draw_monoids: BufferSize::default(),
            info: BufferSize::default(),
            clip_inps: BufferSize::default(),
            clip_els: BufferSize::default(),
            clip_bics: BufferSize::default(),
            clip_bboxes: BufferSize::default(),
            draw_bboxes: BufferSize::default(),
            bump_alloc: BufferSize::default(),
            indirect_count: BufferSize::default(),
            bin_headers: BufferSize::default(),
            paths: BufferSize::default(),
            lines: BufferSize::default(),
            bin_data: BufferSize::default(),
            tiles: BufferSize::default(),
            seg_counts: BufferSize::default(),
            segments: BufferSize::default(),
            blend_spill: BufferSize::default(),
            ptcl: BufferSize::default(),
            active_tile_ids: BufferSize::default(),
        };
        assert(r@ =~= Seq::new(25, |i: int| 1int));
        r
    }
}

impl PartialEq for BufferSizes {
    fn eq(&self, other: &Self) -> (b: bool) {
        proof {
            let a = self@;
            let b = other@;
            assert(a == b ==> (forall|i: int| 0 <= i < 25 ==> a[i] == b[i]));
            assert(a[0] == self.path_reduced@ && b[0] == other.path_reduced@);
            assert(a[1] == self.path_reduced2@ && b[1] == other.path_reduced2@);
            assert(a[2] == self.path_reduced_scan@ && b[2] == other.path_reduced_scan@);
            assert(a[3] == self.path_monoids@ && b[3] == other.path_monoids@);
            assert(a[4] == self.path_bboxes@ && b[4] == other.path_bboxes@);
            assert(a[5] == self.draw_reduced@ && b[5] == other.draw_reduced@);
            assert(a[6] == self.draw_monoids@ && b[6] == other.draw_monoids@);
            assert(a[7] == self.info@ && b[7] == other.info@);
            assert(a[8] == self.clip_inps@ && b[8] == other.clip_inps@);
            assert(a[9] == self.clip_els@ && b[9] == other.clip_els@);
            assert(a[10] == self.clip_bics@ && b[10] == other.clip_bics@);
            assert(a[11] == self.clip_bboxes@ && b[11] == other.clip_bboxes@);
            assert(a[12] == self.draw_bboxes@ && b[12] == other.draw_bboxes@);
            assert(a[13] == self.bump_alloc@ && b[13] == other.bump_alloc@);
            assert(a[14] == self.indirect_count@ && b[14] == other.indirect_count@);
            assert(a[15] == self.bin_headers@ && b[15] == other.bin_headers@);
            assert(a[16] == self.paths@ && b[16] == other.paths@);
            assert(a[17] == self.lines@ && b[17] == other.lines@);
            assert(a[18] == self.bin_data@ && b[18] == other.bin_data@);
            assert(a[19] == self.tiles@ && b[19] == other.tiles@);
            assert(a[20] == self.seg_counts@ && b[20] == other.seg_counts@);
            assert(a[21] == self.segments@ && b[21] == other.segments@);
            assert(a[22] == self.blend_spill@ && b[22] == other.blend_spill@);
            assert(a[23] == self.ptcl@ && b[23] == other.ptcl@);
            assert(a[24] == self.active_tile_ids@ && b[24] == other.active_tile_ids@);
        }
        let same: bool = self.path_reduced.len == other.path_reduced.len
            && self.path_reduced2.len == other.path_reduced2.len
            && self.path_reduced_scan.len == other.path_reduced_scan.len
            && self.path_monoids.len == other.path_monoids.len
            && self.path_bboxes.len == other.path_bboxes.len
            && self.draw_reduced.len == other.draw_reduced.len
            && self.draw_monoids.len == other.draw_monoids.len
            && self.info.len == other.info.len
            && self.clip_inps.len == other.clip_inps.len
            && self.clip_els.len == other.clip_els.len
            && self.clip_bics.len == other.clip_bics.len
            && self.clip_bboxes.len == other.clip_bboxes.len
            && self.draw_bboxes.len == other.draw_bboxes.len
            && self.bump_alloc.len == other.bump_alloc.len
            && self.indirect_count.len == other.indirect_count.len
            && self.bin_headers.len == other.bin_headers.len
            && self.paths.len == other.paths.len
            && self.lines.len == other.lines.len
            && self.bin_data.len == other.bin_data.len
            && self.tiles.len == other.tiles.len
            && self.seg_counts.len == other.seg_counts.len
            && self.segments.len == other.segments.len
            && self.blend_spill.len == other.blend_spill.len
            && self.ptcl.len == other.ptcl.len
            && self.active_tile_ids.len == other.active_tile_ids.len;
        assert(same ==> self@ =~= other@);
        same
    }
}

impl vstd::std_specs::cmp::PartialEqSpecImpl for BufferSizes {
    open spec fn obeys_eq_spec() -> bool {
        true
    }

    open spec fn eq_spec(&self, other: &Self) -> bool {
        self@ == other@
    }
}

/// Initial number of words for draw info and binning data.
pub const BIN_DATA_LEN: u32 = 262144;

/// Initial number of tiles, lines, segment counts and segments.
pub const TILES_LEN: u32 = 2097152;

/// Initial number of words for blend spills: 4096 spills of 16 by 16 pixels.
pub const BLEND_SPILL_LEN: u32 = 1048576;

/// Initial number of words for per-tile command lists.
pub const PTCL_LEN: u32 = 8388608;

/// What a bump-allocated buffer of `current` elements grows to when `needed` are needed:
/// half again what is needed, in whole blocks of 256 elements.
pub open spec fn grown(current: int, needed: int) -> int {
    if needed > current {
        ceil_div(needed + needed / 2, 256) * 256
    } else {
        current
    }
}

/// The growth of a buffer can be counted in 32 bits.
pub open spec fn growth_fits(current: int, needed: int) -> bool {
    needed > current ==> needed + needed / 2 + 255 <= u32::MAX
}

fn grow(current: u32, needed: u32) -> (r: u32)
    requires
        growth_fits(current as int, needed as int),
    ensures
        r == grown(current as int, needed as int),
        r >= current,
        r >= needed,
{
    if needed > current {
        // 1.5x headroom, rounded up to 256-element alignment.
        let padded: u32 = needed.saturating_add(needed / 2);
        let sum: u32 = padded + 255;
        assert(sum & !255u32 == sum - sum % 256) by (bit_vector);
        sum & !255
    } else {
        current
    }
}

impl BufferSizes {
    /// The machine can count the elements that the layout and the dispatches call for.
    pub open spec fn can_size(layout: Layout, wc: WorkgroupCounts) -> bool {
        &&& reduced_len(wc.path_reduce.0 as int, wc.use_large_path_scan) <= u32::MAX
        &&& wc.path_reduce.0 * PATH_REDUCE_WG <= u32::MAX
        &&& wc.binning.0 * 256 <= u32::MAX
        &&& ceil_div(layout.n_paths as int, 256) * 256 <= u32::MAX
        &&& wc.fine.0 * wc.fine.1 <= u32::MAX
    }

    /// The buffers of `bs` have the sizes that `layout` and the dispatches call for.
    pub open spec fn sized_for(layout: Layout, workgroups: WorkgroupCounts, bs: BufferSizes) -> bool {
        &&& bs.path_reduced@ == at_least_one(reduced_len(workgroups.path_reduce.0 as int, workgroups.use_large_path_scan))
        &&& bs.path_reduced2@ == PATH_REDUCE_WG
        &&& bs.path_reduced_scan@ == bs.path_reduced@
        &&& bs.path_monoids@ == at_least_one(workgroups.path_reduce.0 * PATH_REDUCE_WG)
        &&& bs.path_bboxes@ == at_least_one(layout.n_paths as int)
        &&& bs.draw_reduced@ == at_least_one(workgroups.draw_reduce.0 as int)
        &&& bs.draw_monoids@ == at_least_one(layout.n_draw_objects as int)
        &&& bs.info@ == at_least_one(layout.bin_data_start as int)
        &&& bs.clip_inps@ == at_least_one(layout.n_clips as int)
        &&& bs.clip_els@ == at_least_one(layout.n_clips as int)
        &&& bs.clip_bics@ == at_least_one(layout.n_clips as int / CLIP_REDUCE_WG as int)
        &&& bs.clip_bboxes@ == at_least_one(layout.n_clips as int)
        &&& bs.draw_bboxes@ == at_least_one(layout.n_paths as int)
        &&& bs.bump_alloc@ == 1
        &&& bs.indirect_count@ == N_INDIRECT_STAGES
        &&& bs.bin_headers@ == at_least_one(workgroups.binning.0 * 256)
        &&& bs.paths@ == at_least_one(ceil_div(layout.n_paths as int, 256) * 256)
        &&& bs.lines@ == TILES_LEN
        &&& bs.bin_data@ == BIN_DATA_LEN
        &&& bs.tiles@ == TILES_LEN
        &&& bs.seg_counts@ == TILES_LEN
        &&& bs.segments@ == TILES_LEN
        &&& bs.blend_spill@ == BLEND_SPILL_LEN
        &&& bs.ptcl@ == PTCL_LEN
        &&& bs.active_tile_ids@ == at_least_one(workgroups.fine.0 * workgroups.fine.1)
    }

    /// Sizes the buffers for a scene of `layout`.
    pub fn new(layout: &Layout, workgroups: &WorkgroupCounts) -> (bs: Self)
        requires
            Self::can_size(*layout, *workgroups),
        ensures
            Self::sized_for(*layout, *workgroups, bs),
    {
        let n_paths: u32 = layout.n_paths;
        let n_draw_objects: u32 = layout.n_draw_objects;
        let n_clips: u32 = layout.n_clips;
        let path_tag_wgs: u32 = workgroups.path_reduce.0;
        proof {
            lemma_power_of_two_workgroups();
            align_up_is_next_multiple(path_tag_wgs, 256);
            align_up_is_next_multiple(n_paths, 256);
        }
        let reduced_size: u32 = if workgroups.use_large_path_scan {
            align_up(path_tag_wgs, PATH_REDUCE_WG)
        } else {
            path_tag_wgs
        };
        let binning_wgs: u32 = workgroups.binning.0;
        let draw_monoid_wgs: u32 = workgroups.draw_reduce.0;
        let n_paths_aligned: u32 = align_up(n_paths, 256);
        // The sizes of the bump-allocated buffers have been hand picked to accommodate
        // large scenes; they grow with what a frame turns out to need.
        BufferSizes {
            path_reduced: BufferSize::new(reduced_size),
            path_reduced2: BufferSize::new(PATH_REDUCE_WG),
            path_reduced_scan: BufferSize::new(reduced_size),
            path_monoids: BufferSize::new(path_tag_wgs * PATH_REDUCE_WG),
            path_bboxes: BufferSize::new(n_paths),
            draw_reduced: BufferSize::new(draw_monoid_wgs),
            draw_monoids: BufferSize::new(n_draw_objects),
            info: BufferSize::new(layout.bin_data_start),
            clip_inps: BufferSize::new(n_clips),
            clip_els: BufferSize::new(n_clips),
            clip_bics: BufferSize::new(n_clips / CLIP_REDUCE_WG),
            clip_bboxes: BufferSize::new(n_clips),
            draw_bboxes: BufferSize::new(n_paths),
            bump_alloc: BufferSize::new(1),
            indirect_count: BufferSize::new(N_INDIRECT_STAGES),
            bin_headers: BufferSize::new(binning_wgs * 256),
            paths: BufferSize::new(n_paths_aligned),
            lines: BufferSize::new(TILES_LEN),
            bin_data: BufferSize::new(BIN_DATA_LEN),
            tiles: BufferSize::new(TILES_LEN),
            seg_counts: BufferSize::new(TILES_LEN),
            segments: BufferSize::new(TILES_LEN),
            blend_spill: BufferSize::new(BLEND_SPILL_LEN),
            ptcl: BufferSize::new(PTCL_LEN),
            active_tile_ids: BufferSize::new(workgroups.fine.0 * workgroups.fine.1),
        }
    }

    /// The pairs that `pool_allocs` lists.
    pub open spec fn pool_pairs(self) -> Seq<(int, int)> {
        seq![
            (self.path_reduced@, PathMonoid::spec_stride() as int),
            (self.path_reduced2@, PathMonoid::spec_stride() as int),
            (self.path_reduced_scan@, PathMonoid::spec_stride() as int),
            (self.path_monoids@, PathMonoid::spec_stride() as int),
            (self.path_bboxes@, PathBbox::spec_stride() as int),
            (self.draw_reduced@, DrawMonoid::spec_stride() as int),
            (self.draw_monoids@, DrawMonoid::spec_stride() as int),
            (self.bin_data@, u32::spec_stride() as int),
            (self.clip_inps@, Clip::spec_stride() as int),
            (self.clip_els@, ClipElement::spec_stride() as int),
            (self.clip_bics@, ClipBic::spec_stride() as int),
            (self.clip_bboxes@, ClipBbox::spec_stride() as int),
            (self.draw_bboxes@, DrawBbox::spec_stride() as int),
            (self.bin_headers@, BinHeader::spec_stride() as int),
            (self.paths@, Path::spec_stride() as int),
            (self.tiles@, Tile::spec_stride() as int),
            (self.segments@, PathSegment::spec_stride() as int),
            (self.ptcl@, u32::spec_stride() as int),
            (self.lines@, LineSoup::spec_stride() as int),
            (self.seg_counts@, SegmentCount::spec_stride() as int),
            (self.blend_spill@, u32::spec_stride() as int),
            (self.active_tile_ids@, u32::spec_stride() as int),
        ]
    }

    /// Pairs of (`element_count`, `element_stride`) for all buffers that go into the
    /// storage pool. Excludes `bump_alloc` and `indirect_count` (exempt from pooling),
    /// and `info`, which shares the binning buffer.
    pub fn pool_allocs(&self) -> (v: Vec<(usize, usize)>)
        ensures
            v@.len() == self.pool_pairs().len(),
            forall|i: int|
                0 <= i < v@.len() ==> (#[trigger] v@[i]).0 == self.pool_pairs()[i].0 && v@[i].1 == self.pool_pairs()[i].1,
    {
        vec![
            (self.path_reduced.len() as usize, PathMonoid::stride() as usize),
            (self.path_reduced2.len() as usize, PathMonoid::stride() as usize),
            (self.path_reduced_scan.len() as usize, PathMonoid::stride() as usize),
            (self.path_monoids.len() as usize, PathMonoid::stride() as usize),
            (self.path_bboxes.len() as usize, PathBbox::stride() as usize),
            (self.draw_reduced.len() as usize, DrawMonoid::stride() as usize),
            (self.draw_monoids.len() as usize, DrawMonoid::stride() as usize),
            (self.bin_data.len() as usize, u32::stride() as usize),
            (self.clip_inps.len() as usize, Clip::stride() as usize),
            (self.clip_els.len() as usize, ClipElement::stride() as usize),
            (self.clip_bics.len() as usize, ClipBic::stride() as usize),
            (self.clip_bboxes.len() as usize, ClipBbox::stride() as usize),
            (self.draw_bboxes.len() as usize, DrawBbox::stride() as usize),
            (self.bin_headers.len() as usize, BinHeader::stride() as usize),
            (self.paths.len() as usize, Path::stride() as usize),
            (self.tiles.len() as usize, Tile::stride() as usize),
            (self.segments.len() as usize, PathSegment::stride() as usize),
            (self.ptcl.len() as usize, u32::stride() as usize),
            (self.lines.len() as usize, LineSoup::stride() as usize),
            (self.seg_counts.len() as usize, SegmentCount::stride() as usize),
            (self.blend_spill.len() as usize, u32::stride() as usize),
            (self.active_tile_ids.len() as usize, u32::stride() as usize),
        ]
    }

    /// The segments that a frame needs: each segment count produces one segment, and the
    /// stage that counts segments may not have run.
    pub open spec fn segments_needed(bump: BumpAllocators) -> int {
        max_int(bump.segments as int, bump.seg_counts as int)
    }

    /// The buffers, grown to what `bump` reports, can be counted in 32 bits.
    pub open spec fn can_grow(self, bump: BumpAllocators) -> bool {
        &&& self.info@ <= self.bin_data@
        &&& growth_fits(self.bin_data@ - self.info@, bump.binning as int)
        &&& self.info@ + grown(self.bin_data@ - self.info@, bump.binning as int) <= u32::MAX
        &&& growth_fits(self.lines@, bump.lines as int)
        &&& growth_fits(self.tiles@, bump.tile as int)
        &&& growth_fits(self.seg_counts@, bump.seg_counts as int)
        &&& growth_fits(self.segments@, Self::segments_needed(bump))
        &&& growth_fits(self.blend_spill@, bump.blend as int)
        &&& growth_fits(self.ptcl@, bump.ptcl as int)
    }

    /// `next` is `self` with its bump-allocated buffers grown to what `bump` reports.
    pub open spec fn grown_for(self, bump: BumpAllocators, next: BufferSizes) -> bool {
        &&& next.lines@ == at_least_one(grown(self.lines@, bump.lines as int))
        &&& next.bin_data@ == at_least_one(self.info@ + grown(self.bin_data@ - self.info@, bump.binning as int))
        &&& next.tiles@ == at_least_one(grown(self.tiles@, bump.tile as int))
        &&& next.seg_counts@ == at_least_one(grown(self.seg_counts@, bump.seg_counts as int))
        &&& next.segments@ == at_least_one(grown(self.segments@, Self::segments_needed(bump)))
        &&& next.blend_spill@ == at_least_one(grown(self.blend_spill@, bump.blend as int))
        &&& next.ptcl@ == at_least_one(grown(self.ptcl@, bump.ptcl as int))
        &&& next.path_reduced == self.path_reduced
        &&& next.path_reduced2 == self.path_reduced2
        &&& next.path_reduced_scan == self.path_reduced_scan
        &&& next.path_monoids == self.path_monoids
        &&& next.path_bboxes == self.path_bboxes
        &&& next.draw_reduced == self.draw_reduced
        &&& next.draw_monoids == self.draw_monoids
        &&& next.info == self.info
        &&& next.clip_inps == self.clip_inps
        &&& next.clip_els == self.clip_els
        &&& next.clip_bics == self.clip_bics
        &&& next.clip_bboxes == self.clip_bboxes
        &&& next.draw_bboxes == self.draw_bboxes
        &&& next.bump_alloc == self.bump_alloc
        &&& next.indirect_count == self.indirect_count
        &&& next.bin_headers == self.bin_headers
        &&& next.paths == self.paths
        &&& next.active_tile_ids == self.active_tile_ids
    }

    /// Create new buffer sizes with bump-allocated buffers scaled up to accommodate
    /// the actual usage reported by the GPU bump allocator.
    ///
    /// Each overflowed buffer is grown by 1.5x the actual usage (rounded up to a
    /// 256-element alignment boundary).
    pub fn with_bump_estimates(&self, bump: &BumpAllocators) -> (next: Self)
        requires
            self.can_grow(*bump),
        ensures
            self.grown_for(*bump, next),
    {
        // bin_data is shared: first `info.len()` elements are draw info (fixed),
        // remaining are binning data (bump-allocated). Only the binning portion grows.
        let bin_data_start: u32 = self.info.len();
        let current_binning: u32 = self.bin_data.len() - bin_data_start;
        let new_binning: u32 = grow(current_binning, bump.binning);
        let segments_needed: u32 = max_u32(bump.segments, bump.seg_counts);
        BufferSizes {
            lines: BufferSize::new(grow(self.lines.len(), bump.lines)),
            bin_data: BufferSize::new(bin_data_start + new_binning),
            tiles: BufferSize::new(grow(self.tiles.len(), bump.tile)),
            seg_counts: BufferSize::new(grow(self.seg_counts.len(), bump.seg_counts)),
            segments: BufferSize::new(grow(self.segments.len(), segments_needed)),
            blend_spill: BufferSize::new(grow(self.blend_spill.len(), bump.blend)),
            ptcl: BufferSize::new(grow(self.ptcl.len(), bump.ptcl)),
            ..*self
        }
    }
}

/// Every bump-allocated buffer has room for what `bump` reports.
pub open spec fn holds(bs: BufferSizes, bump: BumpAllocators) -> bool {
    &&& bump.lines <= bs.lines@
    &&& bump.binning <= bs.bin_data@ - bs.info@
    &&& bump.tile <= bs.tiles@
    &&& bump.seg_counts <= bs.seg_counts@
    &&& BufferSizes::segments_needed(bump) <= bs.segments@
    &&& bump.blend <= bs.blend_spill@
    &&& bump.ptcl <= bs.ptcl@
}

proof fn lemma_grown_covers(current: int, needed: int)
    requires
        needed >= 0,
    ensures
        grown(current, needed) >= current,
        grown(current, needed) >= needed,
        needed <= current ==> grown(current, needed) == current,
{
}

/// Growing never shrinks a buffer, and leaves room for what was needed.
pub proof fn growth_covers_need(bs: BufferSizes, bump: BumpAllocators, next: BufferSizes)
    requires
        bs.can_grow(bump),
        bs.grown_for(bump, next),
    ensures
        holds(next, bump),
        next.lines@ >= bs.lines@,
        next.bin_data@ >= bs.bin_data@,
        next.tiles@ >= bs.tiles@,
        next.seg_counts@ >= bs.seg_counts@,
        next.segments@ >= bs.segments@,
        next.blend_spill@ >= bs.blend_spill@,
        next.ptcl@ >= bs.ptcl@,
{
    lemma_grown_covers(bs.lines@, bump.lines as int);
    lemma_grown_covers(bs.bin_data@ - bs.info@, bump.binning as int);
    lemma_grown_covers(bs.tiles@, bump.tile as int);
    lemma_grown_covers(bs.seg_counts@, bump.seg_counts as int);
    lemma_grown_covers(bs.segments@, BufferSizes::segments_needed(bump));
    lemma_grown_covers(bs.blend_spill@, bump.blend as int);
    lemma_grown_covers(bs.ptcl@, bump.ptcl as int);
}

/// Buffers that already have room keep their sizes: growing twice for one report grows once.
pub proof fn growth_settles(bs: BufferSizes, bump: BumpAllocators, next: BufferSizes, again: BufferSizes)
    requires
        bs.can_grow(bump),
        bs.grown_for(bump, next),
        next.grown_for(bump, again),
        next.lines@ >= 1 && next.bin_data@ >= 1 && next.tiles@ >= 1 && next.seg_counts@ >= 1 && next.segments@ >= 1
            && next.blend_spill@ >= 1 && next.ptcl@ >= 1,
    ensures
        again@ == next@,
{
    growth_covers_need(bs, bump, next);
    lemma_grown_covers(next.lines@, bump.lines as int);
    lemma_grown_covers(next.bin_data@ - next.info@, bump.binning as int);
    lemma_grown_covers(next.tiles@, bump.tile as int);
    lemma_grown_covers(next.seg_counts@, bump.seg_counts as int);
    lemma_grown_covers(next.segments@, BufferSizes::segments_needed(bump));
    lemma_grown_covers(next.blend_spill@, bump.blend as int);
    lemma_grown_covers(next.ptcl@, bump.ptcl as int);
    assert(again@ =~= next@);
}

/// CPU side setup and configuration.
#[derive(Clone, Copy, Default)]
pub struct RenderConfig {
    /// GPU side configuration.
    pub gpu: ConfigUniform,
    /// Workgroup counts for all compute pipelines.
    pub workgroup_counts: WorkgroupCounts,
    /// Sizes of all buffer resources.
    pub buffer_sizes: BufferSizes,
}

impl RenderConfig {
    /// The sizes that the GPU reads are those of the buffers.
    pub open spec fn sizes_agree(self) -> bool {
        &&& self.gpu.lines_size == self.buffer_sizes.lines@
        &&& self.gpu.binning_size == self.buffer_sizes.bin_data@ - self.gpu.layout.bin_data_start
        &&& self.gpu.tiles_size == self.buffer_sizes.tiles@
        &&& self.gpu.seg_counts_size == self.buffer_sizes.seg_counts@
        &&& self.gpu.segments_size == self.buffer_sizes.segments@
        &&& self.gpu.blend_size == self.buffer_sizes.blend_spill@
        &&& self.gpu.ptcl_size == self.buffer_sizes.ptcl@
    }

    /// A scene of `layout` on a target of `width` by `height` pixels can be configured.
    pub open spec fn can_configure(layout: Layout, width: u32, height: u32) -> bool {
        &&& layout.wf()
        &&& layout.spec_path_tags_size() <= 0xffff_fc00
        &&& layout.n_draw_objects <= 0xffff_ff00
        &&& layout.n_paths <= 0xffff_ff00
        &&& layout.bin_data_start <= BIN_DATA_LEN
        &&& width <= 0xffff_fff0
        &&& height <= 0xffff_fff0
        &&& ceil_div(width as int, 16) * ceil_div(height as int, 16) <= u32::MAX
    }

    /// Whether a scene of `layout` on a target of `width` by `height` pixels can be configured.
    pub fn is_configurable(layout: &Layout, width: u32, height: u32) -> (b: bool)
        ensures
            b == Self::can_configure(*layout, width, height),
    {
        if layout.path_tag_base > layout.path_data_base || layout.path_data_base - layout.path_tag_base > 0x3fff_ff00 {
            return false;
        }
        if width > 0xffff_fff0 || height > 0xffff_fff0 {
            return false;
        }
        let columns: u32 = div_ceil(width, TILE_WIDTH);
        let rows: u32 = div_ceil(height, TILE_HEIGHT);
        assert(columns * rows <= u64::MAX) by (nonlinear_arith)
            requires
                0 <= columns <= 0xffff_ffff,
                0 <= rows <= 0xffff_ffff,
        ;
        layout.n_draw_objects <= 0xffff_ff00 && layout.n_paths <= 0xffff_ff00 && layout.bin_data_start <= BIN_DATA_LEN
            && (columns as u64) * (rows as u64) <= u32::MAX as u64
    }

    /// The configuration is that of a scene of `layout` on a target of `width` by `height` pixels.
    pub open spec fn configured_for(self, layout: Layout, width: u32, height: u32, base_color: Color) -> bool {
        &&& self.gpu.width_in_tiles == ceil_div(width as int, 16)
        &&& self.gpu.height_in_tiles == ceil_div(height as int, 16)
        &&& self.gpu.target_width == width
        &&& self.gpu.target_height == height
        &&& self.gpu.base_color == base_color.packed()
        &&& self.gpu.layout == layout
        &&& self.gpu.tile_y_offset == 0
        &&& self.gpu.flatten_thread_base == 0
        &&& self.gpu.mask_active == 0
        &&& self.sizes_agree()
        &&& self.workgroup_counts == workgroup_counts_of(
            layout,
            self.gpu.width_in_tiles,
            self.gpu.height_in_tiles,
            layout.spec_path_tags_size() as u32,
        )
        &&& BufferSizes::sized_for(layout, self.workgroup_counts, self.buffer_sizes)
    }

    /// `next` is `self` with its bump-allocated buffers grown to what `bump` reports.
    pub open spec fn estimated(self, bump: BumpAllocators, next: RenderConfig) -> bool {
        &&& self.buffer_sizes.grown_for(bump, next.buffer_sizes)
        &&& next.sizes_agree()
        &&& next.workgroup_counts == self.workgroup_counts
        &&& next.gpu == (ConfigUniform {
            lines_size: next.gpu.lines_size,
            binning_size: next.gpu.binning_size,
            tiles_size: next.gpu.tiles_size,
            seg_counts_size: next.gpu.seg_counts_size,
            segments_size: next.gpu.segments_size,
            blend_size: next.gpu.blend_size,
            ptcl_size: next.gpu.ptcl_size,
            ..self.gpu
        })
    }

    /// Configures a render of a scene of `layout` onto a target of `width` by `height` pixels.
    pub fn new(layout: &Layout, width: u32, height: u32, base_color: &Color) -> (rc: Self)
        requires
            Self::can_configure(*layout, width, height),
        ensures
            rc.configured_for(*layout, width, height, *base_color),
    {
        let width_in_tiles: u32 = div_ceil(width, TILE_WIDTH);
        let height_in_tiles: u32 = div_ceil(height, TILE_HEIGHT);
        let n_path_tags: u32 = layout.path_tags_size();
        let workgroup_counts = WorkgroupCounts::new(layout, width_in_tiles, height_in_tiles, n_path_tags);
        let buffer_sizes = BufferSizes::new(layout, &workgroup_counts);
        RenderConfig {
            gpu: ConfigUniform {
                width_in_tiles,
                height_in_tiles,
                target_width: width,
                target_height: height,
                base_color: base_color.to_premultiplied_u32(),
                lines_size: buffer_sizes.lines.len(),
                binning_size: buffer_sizes.bin_data.len() - layout.bin_data_start,
                tiles_size: buffer_sizes.tiles.len(),
                seg_counts_size: buffer_sizes.seg_counts.len(),
                segments_size: buffer_sizes.segments.len(),
                blend_size: buffer_sizes.blend_spill.len(),
                ptcl_size: buffer_sizes.ptcl.len(),
                tile_y_offset: 0,
                flatten_thread_base: 0,
                mask_active: 0,
                layout: *layout,
            },
            workgroup_counts,
            buffer_sizes,
        }
    }

    /// Create a new config with bump-allocated buffers resized to accommodate
    /// actual GPU usage. The GPU config's `*_size` fields are updated to match.
    pub fn with_bump_estimates(&self, bump: &BumpAllocators) -> (rc: Self)
        requires
            self.buffer_sizes.can_grow(*bump),
            self.gpu.layout.bin_data_start <= self.buffer_sizes.info@,
        ensures
            self.estimated(*bump, rc),
    {
        let buffer_sizes = self.buffer_sizes.with_bump_estimates(bump);
        let layout = &self.gpu.layout;
        proof {
            lemma_grown_covers(self.buffer_sizes.bin_data@ - self.buffer_sizes.info@, bump.binning as int);
        }
        RenderConfig {
            gpu: ConfigUniform {
                lines_size: buffer_sizes.lines.len(),
                binning_size: buffer_sizes.bin_data.len() - layout.bin_data_start,
                tiles_size: buffer_sizes.tiles.len(),
                seg_counts_size: buffer_sizes.seg_counts.len(),
                segments_size: buffer_sizes.segments.len(),
                blend_size: buffer_sizes.blend_spill.len(),
                ptcl_size: buffer_sizes.ptcl.len(),
                ..self.gpu
            },
            buffer_sizes,
            workgroup_counts: self.workgroup_counts,
        }
    }
}

} // verus!
