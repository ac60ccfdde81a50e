use ekrano::backdrop::backdrop;
use ekrano::color::Color;
use ekrano::config::{
    align_up, BufferSize, BufferSizes, BumpAllocators, ConfigUniform, IndirectCount, RenderConfig, WorkgroupCounts,
    WorkgroupCountsGpu,
};
use ekrano::layout::{Layout, Path, Tile};
use ekrano::math::{div_ceil, next_power_of_two};
use ekrano::morton::morton_encode_2d;
use ekrano::path::Transform;
use ekrano::path_tiling_setup::path_tiling_setup;
use ekrano::scene_data::read_draw_tag_from_scene;

fn layout() -> Layout {
    Layout {
        n_draw_objects: 300,
        n_paths: 257,
        n_clips: 513,
        bin_data_start: 40,
        path_tag_base: 0,
        path_data_base: 500,
        draw_tag_base: 900,
        ..Layout::default()
    }
}

#[test]
fn lengths_are_aligned() {
    assert_eq!(align_up(0, 256), 0);
    assert_eq!(align_up(1, 256), 256);
    assert_eq!(align_up(256, 256), 256);
    assert_eq!(align_up(257, 256), 512);
    assert_eq!(div_ceil(0, 7), 0);
    assert_eq!(div_ceil(15, 7), 3);
    assert_eq!(next_power_of_two(0), 1);
    assert_eq!(next_power_of_two(65), 128);
}

#[test]
fn buffers_hold_one_element_at_least() {
    assert_eq!(BufferSize::<u32>::new(0).len(), 1);
    assert_eq!(BufferSize::<u32>::default().len(), 1);
    assert_eq!(BufferSizes::default().ptcl.len(), 1);
    assert_eq!(BufferSize::<Tile>::new(3).size_in_bytes(), 24);
    assert_eq!(BufferSize::<Path>::from_size_in_bytes(100).len(), 3);
    assert_eq!(BufferSize::<Tile>::new(3).aligned_in_bytes(16), 32);
    assert!(BufferSize::<u32>::new(1) < BufferSize::<u32>::new(2));
    assert!(BufferSize::<u32>::new(0) == BufferSize::<u32>::new(1));
}

#[test]
fn workgroups_cover_the_scene() {
    let wc = WorkgroupCounts::new(&layout(), 17, 33, 2000);
    assert!(!wc.use_large_path_scan);
    assert_eq!(wc.path_reduce, (2, 1, 1));
    assert_eq!(wc.path_scan1, (0, 1, 1));
    assert_eq!(wc.flatten, (8, 1, 1));
    assert_eq!(wc.bbox_clear, (2, 1, 1));
    assert_eq!(wc.draw_leaf, (2, 1, 1));
    assert_eq!(wc.clip_reduce, (2, 1, 1));
    assert_eq!(wc.clip_leaf, (3, 1, 1));
    assert_eq!(wc.tile_alloc, (2, 1, 1));
    assert_eq!(wc.coarse, (2, 3, 1));
    assert_eq!(wc.fine, (17, 33, 1));
    let large = WorkgroupCounts::new(&layout(), 17, 33, 1024 * 257);
    assert!(large.use_large_path_scan);
    assert_eq!(large.path_scan1, (2, 1, 1));
}

#[test]
fn large_scans_take_other_stages() {
    let small = WorkgroupCountsGpu::from(&WorkgroupCounts::new(&layout(), 4, 4, 2000));
    assert_eq!(small.entries[1], [0; 4]);
    assert_eq!(small.entries[2], [0; 4]);
    assert_eq!(small.entries[3], [2, 1, 1, 0]);
    assert_eq!(small.entries[4], [0; 4]);
    assert_eq!(small.entries[14], [0; 4]);
    assert_eq!(small.entries[18], [0; 4]);
    assert_eq!(small.entries[19], [4, 4, 1, 0]);
    let large = WorkgroupCountsGpu::from(&WorkgroupCounts::new(&layout(), 4, 4, 1024 * 257));
    assert_eq!(large.entries[1], [256, 1, 1, 0]);
    assert_eq!(large.entries[2], [2, 1, 1, 0]);
    assert_eq!(large.entries[3], [0; 4]);
    assert_eq!(large.entries[4], [257, 1, 1, 0]);
    assert!(small.same(&small));
    assert!(!small.same(&large));
}

#[test]
fn buffers_are_sized_from_the_layout() {
    let wc = WorkgroupCounts::new(&layout(), 4, 4, 2000);
    let bs = BufferSizes::new(&layout(), &wc);
    assert_eq!(bs.path_reduced.len(), 2);
    assert_eq!(bs.path_monoids.len(), 512);
    assert_eq!(bs.path_bboxes.len(), 257);
    assert_eq!(bs.draw_monoids.len(), 300);
    assert_eq!(bs.info.len(), 40);
    assert_eq!(bs.clip_bics.len(), 2);
    assert_eq!(bs.bin_headers.len(), 512);
    assert_eq!(bs.paths.len(), 512);
    assert_eq!(bs.indirect_count.len(), 20);
    assert_eq!(bs.bin_data.len(), 1 << 18);
    assert_eq!(bs.tiles.len(), 1 << 21);
    assert_eq!(bs.lines.len(), 1 << 21);
    assert_eq!(bs.blend_spill.len(), 1 << 20);
    assert_eq!(bs.ptcl.len(), 1 << 23);
    assert_eq!(bs.active_tile_ids.len(), 16);
    let allocs = bs.pool_allocs();
    assert_eq!(allocs.len(), 22);
    assert_eq!(allocs[0], (2, 20));
    assert_eq!(allocs[4], (257, 24));
    assert_eq!(allocs[14], (512, 32));
    assert_eq!(allocs[18], (1 << 21, 24));
    assert_eq!(allocs[21], (16, 4));
}

#[test]
fn buffers_grow_by_half() {
    let wc = WorkgroupCounts::new(&layout(), 4, 4, 2000);
    let bs = BufferSizes::new(&layout(), &wc);
    let bump = BumpAllocators {
        lines: (1 << 21) + 1,
        tile: 1 << 21,
        seg_counts: 3_000_000,
        binning: 1 << 18,
        ..BumpAllocators::default()
    };
    let grown = bs.with_bump_estimates(&bump);
    assert_eq!(grown.lines.len(), 3_145_984);
    assert_eq!(grown.tiles.len(), 1 << 21);
    assert_eq!(grown.seg_counts.len(), 4_500_224);
    assert_eq!(grown.segments.len(), 4_500_224, "a counted segment will need its place");
    assert_eq!(grown.bin_data.len(), 40 + 393_216);
    assert_eq!(grown.ptcl.len(), bs.ptcl.len());
    assert!(grown.with_bump_estimates(&bump) == grown, "growth settles");
}

#[test]
fn configurations_follow_the_sizes() {
    let c = peniko::Color::from_rgba8(255, 0, 0, 255).components;
    let base = Color { components: [c[0].to_bits(), c[1].to_bits(), c[2].to_bits(), c[3].to_bits()] };
    let rc = RenderConfig::new(&layout(), 17, 16, &base);
    assert_eq!((rc.gpu.width_in_tiles, rc.gpu.height_in_tiles), (2, 1));
    assert_eq!((rc.gpu.target_width, rc.gpu.target_height), (17, 16));
    assert_eq!(rc.gpu.base_color, 0xff00_00ff);
    assert_eq!(rc.gpu.binning_size, (1 << 18) - 40);
    assert_eq!(rc.gpu.lines_size, 1 << 21);
    assert_eq!(rc.workgroup_counts.flatten, (8, 1, 1));
    let bump = BumpAllocators { lines: (1 << 21) + 1, ..BumpAllocators::default() };
    let grown = rc.with_bump_estimates(&bump);
    assert_eq!(grown.gpu.lines_size, 3_145_984);
    assert_eq!(grown.gpu.tiles_size, rc.gpu.tiles_size);
    assert_eq!(layout().path_tags_size(), 2000);
}

#[test]
fn counters_have_a_memory_size() {
    let bump = BumpAllocators {
        failed: 0,
        binning: 1,
        ptcl: 2,
        tile: 3,
        seg_counts: 4,
        segments: 5,
        blend: 6,
        lines: 7,
        active_tiles: 8,
    };
    let memory = bump.memory();
    assert_eq!(memory.total, 4 + 8 + 24 + 32 + 120 + 168);
    assert_eq!(memory.lines.len(), 7);
    assert_eq!(memory.segments.size_in_bytes(), 120);
}

#[test]
fn backdrops_are_summed_along_rows() {
    let path = Path { bbox: [2, 1, 5, 3], tiles: 1, padding: [0; 3] };
    let mut tiles = vec![Tile { backdrop: 0, segment_count_or_ix: 9 }; 12];
    for (x, y, value) in [(0, 0, 1), (1, 0, 2), (2, 0, -4), (0, 1, 5), (2, 1, 1)] {
        tiles[1 + morton_encode_2d(x, y) as usize].backdrop = value;
    }
    let layout = Layout { n_draw_objects: 1, ..Layout::default() };
    let config = ConfigUniform { layout, ..ConfigUniform::default() };
    backdrop(1, &config, &BumpAllocators::default(), &[path], &mut tiles);
    for (x, y, value) in [(0, 0, 1), (1, 0, 3), (2, 0, -1), (0, 1, 5), (1, 1, 5), (2, 1, 6)] {
        let tile = tiles[1 + morton_encode_2d(x, y) as usize];
        assert_eq!((tile.backdrop, tile.segment_count_or_ix), (value, 9));
    }
    assert_eq!(tiles[0].backdrop, 0);
}

#[test]
fn tiling_counts_its_workgroups() {
    let mut indirect = vec![IndirectCount { count_x: 0, count_y: 0, count_z: 0, pad0: 7 }; 2];
    let bump = BumpAllocators { seg_counts: 257, ..BumpAllocators::default() };
    path_tiling_setup(1, &bump, &mut indirect);
    assert_eq!(indirect[0], IndirectCount { count_x: 2, count_y: 1, count_z: 1, pad0: 7 });
    assert_eq!(indirect[1].count_x, 0);
}

#[test]
fn draw_tags_beyond_the_end_do_nothing() {
    let layout = Layout { n_draw_objects: 2, draw_tag_base: 1, ..Layout::default() };
    let config = ConfigUniform { layout, ..ConfigUniform::default() };
    let scene = [0, 11, 12];
    assert_eq!(read_draw_tag_from_scene(&config, &scene, 0), 11);
    assert_eq!(read_draw_tag_from_scene(&config, &scene, 1), 12);
    assert_eq!(read_draw_tag_from_scene(&config, &scene, 2), 0);
}

#[test]
fn transforms_are_read_from_the_scene() {
    let scene: Vec<u32> = (0..20).collect();
    let transform = Transform::read(3, 1, &scene);
    assert_eq!(transform, Transform { xx: 9, xy: 10, yx: 11, yy: 12, dx: 13, dy: 14 });
}

#[test]
fn disjoint_paths_are_summed_apart() {
    let first = Path { bbox: [0, 0, 2, 1], tiles: 0, padding: [0; 3] };
    let second = Path { bbox: [4, 4, 6, 6], tiles: 2, padding: [0; 3] };
    let mut tiles: Vec<Tile> =
        (1..8).map(|n| Tile { backdrop: n, segment_count_or_ix: n as u32 * 10 }).collect();
    let layout = Layout { n_draw_objects: 2, ..Layout::default() };
    let config = ConfigUniform { layout, ..ConfigUniform::default() };
    backdrop(1, &config, &BumpAllocators::default(), &[first, second], &mut tiles);
    let sums: Vec<i32> = tiles.iter().map(|tile| tile.backdrop).collect();
    assert_eq!(sums, vec![1, 3, 3, 7, 5, 11, 7]);
    assert!(tiles.iter().zip(1..).all(|(tile, n)| tile.segment_count_or_ix == n * 10));
}
