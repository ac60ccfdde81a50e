//! What the sizes of a frame amount to: every dispatch covers its elements, every buffer has room for
//! what is written to it, and the GPU is told the sizes that the buffers have.

use crate::color::Color;
use crate::config::{
    grown, workgroup_counts_of, BufferSizes, BumpAllocators, RenderConfig, WorkgroupCounts, WorkgroupCountsGpu,
};
use crate::layout::Layout;
use vstd::prelude::*;

verus! {

/// That many workgroups of `size` threads cover `n` elements, with less than one workgroup to spare.
pub open spec fn covers(workgroups: int, size: int, n: int) -> bool {
    size * workgroups - size < n <= size * workgroups
}

/// A dispatch in one dimension that covers `n` elements.
pub open spec fn covers_row(dispatch: (u32, u32, u32), size: int, n: int) -> bool {
    covers(dispatch.0 as int, size, n) && dispatch.1 == 1 && dispatch.2 == 1
}

/// Every dispatch covers its elements, with less than one workgroup to spare: path tags in blocks of
/// 1024, or of 256 where they are flattened; draw objects, paths and clips in blocks of 256; tiles in
/// squares of 16 by 16; and each tile has a workgroup of its own in fine rasterization.
pub proof fn dispatches_cover_their_elements(layout: Layout, columns: u32, rows: u32, n_path_tags: u32)
    requires
        n_path_tags <= 0xffff_fc00,
    ensures
        ({
            let wc = workgroup_counts_of(layout, columns, rows, n_path_tags);
            &&& covers_row(wc.path_reduce, 1024, n_path_tags as int)
            &&& covers_row(wc.path_scan, 1024, n_path_tags as int)
            &&& covers_row(wc.flatten, 256, n_path_tags as int)
            &&& covers_row(wc.bbox_clear, 256, layout.n_draw_objects as int)
            &&& covers_row(wc.binning, 256, layout.n_draw_objects as int)
            &&& covers_row(wc.tile_alloc, 256, layout.n_paths as int)
            &&& covers_row(wc.backdrop, 256, layout.n_paths as int)
            &&& covers_row(wc.clip_leaf, 256, layout.n_clips as int)
            &&& covers(wc.coarse.0 as int, 16, columns as int)
            &&& covers(wc.coarse.1 as int, 16, rows as int)
            &&& wc.coarse.2 == 1
            &&& wc.fine == (columns, rows, 1u32)
            &&& wc.path_count_setup == (1u32, 1u32, 1u32)
            &&& wc.path_tiling_setup == (1u32, 1u32, 1u32)
        }),
{
}

/// The two-level reductions fit together. Draw objects are reduced by as many workgroups as cover them,
/// but by no more than 256, which each take several blocks. Path tags take a second level exactly where
/// one workgroup of 256 cannot take in all sums of the first level; it then covers those sums. All blocks
/// of clips but the last one are reduced before the leaves.
pub proof fn reductions_fit_together(layout: Layout, columns: u32, rows: u32, n_path_tags: u32)
    requires
        n_path_tags <= 0xffff_fc00,
    ensures
        ({
            let wc = workgroup_counts_of(layout, columns, rows, n_path_tags);
            &&& wc.draw_reduce == wc.draw_leaf
            &&& if layout.n_draw_objects <= 0x1_0000 {
                covers_row(wc.draw_reduce, 256, layout.n_draw_objects as int)
            } else {
                wc.draw_reduce == (256u32, 1u32, 1u32)
            }
            &&& wc.use_large_path_scan == (n_path_tags > 0x4_0000)
            &&& wc.path_reduce2 == (256u32, 1u32, 1u32)
            &&& wc.use_large_path_scan ==> covers_row(wc.path_scan1, 256, wc.path_reduce.0 as int)
            &&& wc.clip_reduce.1 == 1 && wc.clip_reduce.2 == 1
            &&& layout.n_clips > 0 ==> wc.clip_leaf.0 == wc.clip_reduce.0 + 1
            &&& layout.n_clips == 0 ==> wc.clip_leaf.0 == 0 && wc.clip_reduce.0 == 0
        }),
{
}

/// The dispatch is laid out at a row of the indirect buffer.
pub open spec fn row_holds(gpu: WorkgroupCountsGpu, row: int, dispatch: (u32, u32, u32)) -> bool {
    gpu.row(row) == seq![dispatch.0, dispatch.1, dispatch.2, 0u32]
}

/// The indirect buffer has a row for each stage, in the order in which the stages run. Of the two ways to
/// scan path tags, the one that is not taken is empty, and so are the two rows that the GPU fills in.
pub proof fn stages_have_their_rows(gpu: WorkgroupCountsGpu, wc: WorkgroupCounts)
    requires
        gpu.lays_out(wc),
    ensures
        ({
            let nothing = (0u32, 0u32, 0u32);
            let (large, small) = if wc.use_large_path_scan {
                (wc.path_scan, nothing)
            } else {
                (nothing, wc.path_scan)
            };
            &&& row_holds(gpu, 0, wc.path_reduce)
            &&& wc.use_large_path_scan ==> row_holds(gpu, 1, wc.path_reduce2) && row_holds(gpu, 2, wc.path_scan1)
            &&& !wc.use_large_path_scan ==> row_holds(gpu, 1, nothing) && row_holds(gpu, 2, nothing)
            &&& row_holds(gpu, 3, small)
            &&& row_holds(gpu, 4, large)
            &&& row_holds(gpu, 5, wc.bbox_clear)
            &&& row_holds(gpu, 6, wc.flatten)
            &&& row_holds(gpu, 7, wc.draw_reduce)
            &&& row_holds(gpu, 8, wc.draw_leaf)
            &&& row_holds(gpu, 9, wc.clip_reduce)
            &&& row_holds(gpu, 10, wc.clip_leaf)
            &&& row_holds(gpu, 11, wc.binning)
            &&& row_holds(gpu, 12, wc.tile_alloc)
            &&& row_holds(gpu, 13, wc.path_count_setup)
            &&& row_holds(gpu, 14, nothing)
            &&& row_holds(gpu, 15, wc.backdrop)
            &&& row_holds(gpu, 16, wc.coarse)
            &&& row_holds(gpu, 17, wc.path_tiling_setup)
            &&& row_holds(gpu, 18, nothing)
            &&& row_holds(gpu, 19, wc.fine)
        }),
{
    assert(gpu.row(0).len() == 4 && gpu.row(1).len() == 4 && gpu.row(2).len() == 4 && gpu.row(3).len() == 4 && gpu.row(
        4,
    ).len() == 4 && gpu.row(5).len() == 4 && gpu.row(6).len() == 4 && gpu.row(7).len() == 4 && gpu.row(8).len() == 4
        && gpu.row(9).len() == 4 && gpu.row(10).len() == 4 && gpu.row(11).len() == 4 && gpu.row(12).len() == 4
        && gpu.row(13).len() == 4 && gpu.row(14).len() == 4 && gpu.row(15).len() == 4 && gpu.row(16).len() == 4
        && gpu.row(17).len() == 4 && gpu.row(18).len() == 4 && gpu.row(19).len() == 4);
}

/// The buffer has room for exactly `n` elements, or for one where there are none.
pub open spec fn has_room(len: int, n: int) -> bool {
    len == n || (n == 0 && len == 1)
}

/// Every buffer whose size is known has room for what the stages write to it: one entry for each path,
/// draw object, clip or tile; one sum for each workgroup that reduces; one sum of path tags for four
/// tags; 256 bin headers for each workgroup that bins; and paths in whole blocks of 256. The buffers that
/// the GPU allocates from start at sizes that suit large scenes.
pub proof fn buffers_hold_their_elements(
    layout: Layout,
    columns: u32,
    rows: u32,
    n_path_tags: u32,
    wc: WorkgroupCounts,
    bs: BufferSizes,
)
    requires
        n_path_tags <= 0xffff_fc00,
        wc == workgroup_counts_of(layout, columns, rows, n_path_tags),
        BufferSizes::sized_for(layout, wc, bs),
    ensures
        has_room(bs.path_bboxes@, layout.n_paths as int),
        has_room(bs.draw_bboxes@, layout.n_paths as int),
        has_room(bs.draw_monoids@, layout.n_draw_objects as int),
        has_room(bs.clip_inps@, layout.n_clips as int),
        has_room(bs.clip_els@, layout.n_clips as int),
        has_room(bs.clip_bboxes@, layout.n_clips as int),
        has_room(bs.info@, layout.bin_data_start as int),
        has_room(bs.draw_reduced@, wc.draw_reduce.0 as int),
        has_room(bs.bin_headers@, 256 * wc.binning.0),
        has_room(bs.active_tile_ids@, columns * rows),
        bs.clip_bics@ >= wc.clip_reduce.0,
        256 * bs.clip_bics@ <= layout.n_clips || bs.clip_bics@ == 1,
        n_path_tags <= 4 * bs.path_monoids@ < n_path_tags + 1028,
        bs.path_reduced@ >= wc.path_reduce.0,
        wc.use_large_path_scan ==> bs.path_reduced@ == 256 * wc.path_scan1.0,
        !wc.use_large_path_scan ==> has_room(bs.path_reduced@, wc.path_reduce.0 as int),
        bs.path_reduced_scan@ == bs.path_reduced@,
        bs.path_reduced2@ == 256,
        layout.n_paths <= bs.paths@ < layout.n_paths + 256,
        bs.paths@ % 256 == 0 || layout.n_paths == 0,
        bs.bump_alloc@ == 1,
        bs.indirect_count@ == 20,
        bs.lines@ == 0x20_0000,
        bs.tiles@ == 0x20_0000,
        bs.seg_counts@ == 0x20_0000,
        bs.segments@ == 0x20_0000,
        bs.bin_data@ == 0x4_0000,
        bs.blend_spill@ == 0x10_0000,
        bs.ptcl@ == 0x80_0000,
{
    dispatches_cover_their_elements(layout, columns, rows, n_path_tags);
    assert(wc.fine.0 * wc.fine.1 == columns * rows);
    assert(0 <= columns * rows) by (nonlinear_arith)
        requires
            0 <= columns,
            0 <= rows,
    ;
}

/// What a buffer that the GPU allocates from becomes when `needed` elements are needed: it stays as it is
/// where it has room, and else has half again what is needed, in whole blocks of 256, with less than one
/// block more.
pub open spec fn grows(was: int, needed: int, next: int) -> bool {
    if needed <= was {
        next == was
    } else {
        &&& next % 256 == 0
        &&& 3 * needed - 1 <= 2 * next < 3 * needed + 512
    }
}

proof fn lemma_grows(was: int, needed: int)
    requires
        0 <= needed,
        1 <= was,
    ensures
        grows(was, needed, grown(was, needed)),
{
}

/// Each buffer that the GPU allocates from grows to what its own counter asks for. Draw info in front of
/// the binning data keeps its room. Segments have room for as many as have been counted. No other buffer
/// changes.
pub proof fn buffers_grow_for_their_counters(bs: BufferSizes, bump: BumpAllocators, next: BufferSizes)
    requires
        bs.can_grow(bump),
        bs.grown_for(bump, next),
        bs.lines@ >= 1 && bs.tiles@ >= 1 && bs.seg_counts@ >= 1 && bs.segments@ >= 1 && bs.blend_spill@ >= 1 && bs.ptcl@
            >= 1 && bs.bin_data@ > bs.info@ >= 1,
    ensures
        grows(bs.lines@, bump.lines as int, next.lines@),
        grows(bs.bin_data@ - bs.info@, bump.binning as int, next.bin_data@ - next.info@),
        grows(bs.tiles@, bump.tile as int, next.tiles@),
        grows(bs.seg_counts@, bump.seg_counts as int, next.seg_counts@),
        bump.segments >= bump.seg_counts ==> grows(bs.segments@, bump.segments as int, next.segments@),
        bump.segments <= bump.seg_counts ==> grows(bs.segments@, bump.seg_counts as int, next.segments@),
        grows(bs.blend_spill@, bump.blend as int, next.blend_spill@),
        grows(bs.ptcl@, bump.ptcl as int, next.ptcl@),
        forall|i: int| 0 <= i < 17 || i == 24 ==> #[trigger] next@[i] == bs@[i],
{
    lemma_grows(bs.lines@, bump.lines as int);
    lemma_grows(bs.bin_data@ - bs.info@, bump.binning as int);
    lemma_grows(bs.tiles@, bump.tile as int);
    lemma_grows(bs.seg_counts@, bump.seg_counts as int);
    lemma_grows(bs.segments@, bump.segments as int);
    lemma_grows(bs.segments@, bump.seg_counts as int);
    lemma_grows(bs.blend_spill@, bump.blend as int);
    lemma_grows(bs.ptcl@, bump.ptcl as int);
}

/// The GPU is told the sizes that the buffers have. Binning data starts behind the draw info.
pub open spec fn tells_sizes(config: RenderConfig) -> bool {
    &&& config.gpu.lines_size == config.buffer_sizes.lines@
    &&& config.gpu.binning_size + config.gpu.layout.bin_data_start == config.buffer_sizes.bin_data@
    &&& config.gpu.tiles_size == config.buffer_sizes.tiles@
    &&& config.gpu.seg_counts_size == config.buffer_sizes.seg_counts@
    &&& config.gpu.segments_size == config.buffer_sizes.segments@
    &&& config.gpu.blend_size == config.buffer_sizes.blend_spill@
    &&& config.gpu.ptcl_size == config.buffer_sizes.ptcl@
}

/// The configuration of a frame has the size of its target, and tiles of 16 by 16 pixels that cover it
/// with less than one tile to spare on each side. It holds the layout and the background of the scene, and
/// the sizes of the buffers.
pub proof fn configurations_fit_their_target(
    config: RenderConfig,
    layout: Layout,
    width: u32,
    height: u32,
    base_color: Color,
)
    requires
        RenderConfig::can_configure(layout, width, height),
        config.configured_for(layout, width, height, base_color),
    ensures
        config.gpu.target_width == width,
        config.gpu.target_height == height,
        covers(config.gpu.width_in_tiles as int, 16, width as int),
        covers(config.gpu.height_in_tiles as int, 16, height as int),
        config.workgroup_counts.fine == (config.gpu.width_in_tiles, config.gpu.height_in_tiles, 1u32),
        config.gpu.layout == layout,
        config.gpu.base_color == base_color.packed(),
        config.gpu.tile_y_offset == 0,
        config.gpu.flatten_thread_base == 0,
        config.gpu.mask_active == 0,
        tells_sizes(config),
        covers_row(
            config.workgroup_counts.path_reduce,
            1024,
            4 * (layout.path_data_base - layout.path_tag_base),
        ),
{
    dispatches_cover_their_elements(
        layout,
        config.gpu.width_in_tiles,
        config.gpu.height_in_tiles,
        layout.spec_path_tags_size() as u32,
    );
}

/// A configuration that is grown for a report of the GPU tells the new sizes, and is otherwise the same.
pub proof fn grown_configurations_tell_their_sizes(config: RenderConfig, bump: BumpAllocators, next: RenderConfig)
    requires
        config.estimated(bump, next),
    ensures
        tells_sizes(next),
        next.gpu.target_width == config.gpu.target_width,
        next.gpu.target_height == config.gpu.target_height,
        next.gpu.width_in_tiles == config.gpu.width_in_tiles,
        next.gpu.height_in_tiles == config.gpu.height_in_tiles,
        next.gpu.base_color == config.gpu.base_color,
        next.gpu.layout == config.gpu.layout,
        next.gpu.tile_y_offset == config.gpu.tile_y_offset,
        next.gpu.flatten_thread_base == config.gpu.flatten_thread_base,
        next.gpu.mask_active == config.gpu.mask_active,
        next.workgroup_counts == config.workgroup_counts,
{
}

/// The memory report counts every element at its size, and one element where there are none.
pub proof fn memory_counts_every_element(bump: BumpAllocators)
    requires
        bump.binning > 0 && bump.ptcl > 0 && bump.tile > 0 && bump.seg_counts > 0 && bump.segments > 0 && bump.lines > 0,
    ensures
        bump.memory_total() == 4 * (bump.binning + bump.ptcl) + 8 * (bump.tile + bump.seg_counts) + 24 * (bump.segments
            + bump.lines),
        (BumpAllocators { binning: 0, ..bump }).memory_total() == bump.memory_total() - 4 * bump.binning + 4,
        (BumpAllocators { ptcl: 0, ..bump }).memory_total() == bump.memory_total() - 4 * bump.ptcl + 4,
        (BumpAllocators { tile: 0, ..bump }).memory_total() == bump.memory_total() - 8 * bump.tile + 8,
        (BumpAllocators { seg_counts: 0, ..bump }).memory_total() == bump.memory_total() - 8 * bump.seg_counts + 8,
        (BumpAllocators { segments: 0, ..bump }).memory_total() == bump.memory_total() - 24 * bump.segments + 24,
        (BumpAllocators { lines: 0, ..bump }).memory_total() == bump.memory_total() - 24 * bump.lines + 24,
{
}

/// Two sets of sizes are the same only where every buffer of one is as large as that of the other.
pub proof fn same_sizes_agree_in_every_buffer(a: BufferSizes, b: BufferSizes)
    requires
        a@ == b@,
    ensures
        a.path_reduced@ == b.path_reduced@,
        a.path_reduced2@ == b.path_reduced2@,
        a.path_reduced_scan@ == b.path_reduced_scan@,
        a.path_monoids@ == b.path_monoids@,
        a.path_bboxes@ == b.path_bboxes@,
        a.draw_reduced@ == b.draw_reduced@,
        a.draw_monoids@ == b.draw_monoids@,
        a.info@ == b.info@,
        a.clip_inps@ == b.clip_inps@,
        a.clip_els@ == b.clip_els@,
        a.clip_bics@ == b.clip_bics@,
        a.clip_bboxes@ == b.clip_bboxes@,
        a.draw_bboxes@ == b.draw_bboxes@,
        a.bump_alloc@ == b.bump_alloc@,
        a.indirect_count@ == b.indirect_count@,
        a.bin_headers@ == b.bin_headers@,
        a.paths@ == b.paths@,
        a.lines@ == b.lines@,
        a.bin_data@ == b.bin_data@,
        a.tiles@ == b.tiles@,
        a.seg_counts@ == b.seg_counts@,
        a.segments@ == b.segments@,
        a.blend_spill@ == b.blend_spill@,
        a.ptcl@ == b.ptcl@,
        a.active_tile_ids@ == b.active_tile_ids@,
{
    assert(a@[0] == b@[0]);
    assert(a@[1] == b@[1]);
    assert(a@[2] == b@[2]);
    assert(a@[3] == b@[3]);
    assert(a@[4] == b@[4]);
    assert(a@[5] == b@[5]);
    assert(a@[6] == b@[6]);
    assert(a@[7] == b@[7]);
    assert(a@[8] == b@[8]);
    assert(a@[9] == b@[9]);
    assert(a@[10] == b@[10]);
    assert(a@[11] == b@[11]);
    assert(a@[12] == b@[12]);
    assert(a@[13] == b@[13]);
    assert(a@[14] == b@[14]);
    assert(a@[15] == b@[15]);
    assert(a@[16] == b@[16]);
    assert(a@[17] == b@[17]);
    assert(a@[18] == b@[18]);
    assert(a@[19] == b@[19]);
    assert(a@[20] == b@[20]);
    assert(a@[21] == b@[21]);
    assert(a@[22] == b@[22]);
    assert(a@[23] == b@[23]);
    assert(a@[24] == b@[24]);
}

} // verus!
