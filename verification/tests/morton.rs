use ekrano::morton::{morton_compact, morton_decode_2d, morton_encode_2d, morton_expand, morton_tile_dim};

// --- morton_tile_dim ---

#[test]
fn tile_dim_zero_for_empty_bbox() {
    assert_eq!(morton_tile_dim(0, 5), 0);
    assert_eq!(morton_tile_dim(5, 0), 0);
    assert_eq!(morton_tile_dim(0, 0), 0);
}

#[test]
fn tile_dim_exact_powers_of_two() {
    assert_eq!(morton_tile_dim(1, 1), 1);
    assert_eq!(morton_tile_dim(2, 2), 2);
    assert_eq!(morton_tile_dim(4, 4), 4);
    assert_eq!(morton_tile_dim(8, 8), 8);
    assert_eq!(morton_tile_dim(16, 16), 16);
    assert_eq!(morton_tile_dim(64, 64), 64);
}

#[test]
fn tile_dim_rounds_up_to_next_pow2() {
    assert_eq!(morton_tile_dim(3, 1), 4);
    assert_eq!(morton_tile_dim(1, 3), 4);
    assert_eq!(morton_tile_dim(5, 3), 8);
    assert_eq!(morton_tile_dim(7, 7), 8);
    assert_eq!(morton_tile_dim(9, 1), 16);
    assert_eq!(morton_tile_dim(1, 9), 16);
}

#[test]
fn tile_dim_non_square_uses_max_axis() {
    assert_eq!(morton_tile_dim(1, 64), 64);
    assert_eq!(morton_tile_dim(64, 1), 64);
    assert_eq!(morton_tile_dim(2, 4), 4);
    assert_eq!(morton_tile_dim(4, 2), 4);
}

#[test]
fn tile_dim_reaches_the_largest_power() {
    assert_eq!(morton_tile_dim(0x8000_0000, 1), 0x8000_0000);
    assert_eq!(morton_tile_dim(0x4000_0001, 7), 0x8000_0000);
}

// --- morton_expand / morton_compact round-trip ---

#[test]
fn expand_compact_roundtrip() {
    for x in [0_u32, 1, 2, 3, 7, 15, 255, 65535] {
        let expanded = morton_expand(x);
        let compacted = morton_compact(expanded);
        assert_eq!(compacted, x, "roundtrip failed for x={x}");
    }
}

#[test]
fn expand_known_values() {
    assert_eq!(morton_expand(0b01), 0b01);
    assert_eq!(morton_expand(0b10), 0b0100);
    assert_eq!(morton_expand(0b11), 0b0101);
    assert_eq!(morton_expand(0xffff), 0x5555_5555);
}

#[test]
fn expand_ignores_high_bits() {
    assert_eq!(morton_expand(0x1_0001), 1);
    assert_eq!(morton_compact(0xaaaa_aaaa), 0);
}

// --- morton_encode_2d / morton_decode_2d round-trip ---

#[test]
fn encode_decode_roundtrip() {
    let cases = [(0, 0), (1, 0), (0, 1), (1, 1), (3, 5), (15, 12), (63, 42), (255, 255)];
    for (x, y) in cases {
        let z = morton_encode_2d(x, y);
        let (dx, dy) = morton_decode_2d(z);
        assert_eq!((dx, dy), (x, y), "roundtrip failed for ({x},{y})");
    }
}

#[test]
fn encode_known_values() {
    assert_eq!(morton_encode_2d(0, 0), 0);
    assert_eq!(morton_encode_2d(1, 0), 0b01);
    assert_eq!(morton_encode_2d(0, 1), 0b10);
    assert_eq!(morton_encode_2d(1, 1), 0b11);
    assert_eq!(morton_encode_2d(2, 0), 0b0100);
    assert_eq!(morton_encode_2d(0, 2), 0b1000);
    assert_eq!(morton_encode_2d(2, 2), 0b1100);
    assert_eq!(morton_encode_2d(3, 3), 15);
}

fn assert_no_overflow(width: u32, height: u32) {
    let dim = morton_tile_dim(width, height);
    let limit = dim * dim;
    for y in 0..height {
        for x in 0..width {
            let idx = morton_encode_2d(x, y);
            assert!(
                idx < limit,
                "morton_encode_2d({x},{y}) = {idx} >= {limit} (dim={dim}, w={width}, h={height})"
            );
        }
    }
}

#[test]
fn no_index_overflow_square_bboxes() {
    for dim in [1_u32, 2, 4, 8, 16] {
        assert_no_overflow(dim, dim);
    }
}

#[test]
fn no_index_overflow_non_square_bboxes() {
    assert_no_overflow(1, 2);
    assert_no_overflow(2, 1);
    assert_no_overflow(1, 4);
    assert_no_overflow(4, 1);
    assert_no_overflow(2, 4);
    assert_no_overflow(3, 5);
    assert_no_overflow(5, 3);
    assert_no_overflow(1, 64);
    assert_no_overflow(64, 1);
    assert_no_overflow(10, 7);
}

fn assert_no_collisions(width: u32, height: u32) {
    let dim = morton_tile_dim(width, height);
    let limit = (dim * dim) as usize;
    let mut seen = vec![false; limit];
    for y in 0..height {
        for x in 0..width {
            let idx = morton_encode_2d(x, y) as usize;
            assert!(!seen[idx], "collision at index {idx} for ({x},{y}) in {width}x{height} bbox");
            seen[idx] = true;
        }
    }
}

#[test]
fn no_collisions_various_bboxes() {
    for (w, h) in [
        (1, 1),
        (2, 2),
        (4, 4),
        (8, 8),
        (2, 4),
        (4, 2),
        (3, 5),
        (1, 8),
        (8, 1),
        (7, 6),
    ] {
        assert_no_collisions(w, h);
    }
}
