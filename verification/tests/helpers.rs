use ekrano::color::{Color, PremulColor};
use ekrano::config::{BumpAllocators, RenderConfig};
use ekrano::debug_renderer::{DebugDownloads, DebugLayers, DebugRenderer, UnpairedPoints};
use ekrano::decoration::{
    can_hint, decoration_spans, expand_rect_with_segment, insert_and_merge_range, reaches_band, segment_bounds,
    visible_spans,
};
use ekrano::float::{divide_by_power, float64_at, float64_place, float_eq, float_gt, float_near};
use ekrano::layout::Layout;
use ekrano::render::CapturedBuffers;
use ekrano::resource_proxy::ShaderId;
use ekrano::slang::{slang_search_path, SharedModules, SlangDir};
use ekrano::text::{decimal, reads_as, same_text, trim};
use ekrano::{AaConfig, RenderParams};

const SAMPLES: [f32; 17] = [
    0.0,
    -0.0,
    1.0,
    -1.0,
    1.5,
    16.0,
    16.000002,
    0.1,
    -0.1,
    1.0e-40,
    -1.0e-40,
    3.0e38,
    f32::MIN_POSITIVE,
    f32::INFINITY,
    f32::NEG_INFINITY,
    f32::NAN,
    f32::EPSILON,
];

#[test]
fn patterns_compare_as_numbers() {
    for a in SAMPLES {
        for b in SAMPLES {
            assert_eq!(float_eq(a.to_bits(), b.to_bits()), a == b, "{a} {b}");
            assert_eq!(float_gt(a.to_bits(), b.to_bits()), a > b, "{a} {b}");
        }
    }
}

#[test]
fn near_numbers_differ_by_rounding() {
    let near = |a: f32, b: f32| (a - b).abs() <= f32::EPSILON;
    for a in SAMPLES {
        for b in SAMPLES {
            assert_eq!(float_near(a.to_bits(), b.to_bits()), near(a, b), "{a} {b}");
        }
        for ulps in [1_u32, 2, 3, 7, 8, 9] {
            let b = f32::from_bits(a.to_bits().wrapping_add(ulps));
            assert_eq!(float_near(a.to_bits(), b.to_bits()), near(a, b), "{a} {b}");
        }
    }
    let (a, b) = (1.0_f32, 1.0_f32 + f32::EPSILON);
    assert!(float_near(a.to_bits(), b.to_bits()));
    let (a, b) = (4.0_f32, 4.0_f32 + 4.0 * f32::EPSILON);
    assert!(!float_near(a.to_bits(), b.to_bits()));
    let (a, b) = (f32::EPSILON, -f32::MIN_POSITIVE);
    assert_eq!(float_near(a.to_bits(), b.to_bits()), near(a, b));
}

#[test]
fn powers_of_two_divide() {
    for x in [17.0_f32, 33.3, 1.0e20, f32::INFINITY] {
        for n in 0..=6 {
            assert_eq!(f32::from_bits(divide_by_power(x.to_bits(), n)), x / (1_u32 << n) as f32);
        }
    }
}

#[test]
fn places_order_numbers() {
    let numbers = [f64::NEG_INFINITY, -1.0e300, -2.0, -1.0e-310, 0.0, 1.0e-310, 0.5, 7.0, f64::INFINITY];
    for pair in numbers.windows(2) {
        assert!(float64_place(pair[0].to_bits()) < float64_place(pair[1].to_bits()));
    }
    for x in numbers {
        assert_eq!(f64::from_bits(float64_at(float64_place(x.to_bits()))), x);
    }
    assert_eq!(float64_place((-0.0_f64).to_bits()), float64_place(0.0_f64.to_bits()));
}

#[test]
fn ranges_are_merged() {
    let mut ranges = Vec::new();
    for (start, end) in [(10, 20), (40, 50), (0, 5), (30, 35)] {
        insert_and_merge_range(&mut ranges, start, end);
    }
    assert_eq!(ranges, vec![(0, 5), (10, 20), (30, 35), (40, 50)]);
    insert_and_merge_range(&mut ranges, 20, 22);
    assert_eq!(ranges, vec![(0, 5), (10, 22), (30, 35), (40, 50)]);
    insert_and_merge_range(&mut ranges, 12, 30);
    assert_eq!(ranges, vec![(0, 5), (10, 35), (40, 50)]);
    insert_and_merge_range(&mut ranges, 6, 9);
    assert_eq!(ranges, vec![(0, 5), (6, 9), (10, 35), (40, 50)]);
    insert_and_merge_range(&mut ranges, -1, 60);
    assert_eq!(ranges, vec![(-1, 60)]);
}

#[test]
fn ranges_of_one_point_are_merged_too() {
    let mut ranges = vec![(0, 2), (5, 5)];
    insert_and_merge_range(&mut ranges, 3, 3);
    assert_eq!(ranges, vec![(0, 2), (3, 3), (5, 5)]);
    insert_and_merge_range(&mut ranges, 2, 2);
    assert_eq!(ranges, vec![(0, 2), (3, 3), (5, 5)]);
    insert_and_merge_range(&mut ranges, 2, 3);
    assert_eq!(ranges, vec![(0, 3), (5, 5)]);
    insert_and_merge_range(&mut ranges, 1, 6);
    assert_eq!(ranges, vec![(0, 6)]);
}

#[test]
fn spans_lie_between_exclusions() {
    assert_eq!(visible_spans(0, 100, &[(10, 20), (30, 40)]), vec![(0, 10), (20, 30), (40, 100)]);
    assert_eq!(visible_spans(0, 100, &[(0, 100)]), vec![]);
    assert_eq!(visible_spans(5, 5, &[]), vec![]);
    assert_eq!(decoration_spans(0, 100, &[(30, 50), (-10, 10), (45, 60), (200, 300)]), vec![(10, 30), (60, 100)]);
    assert_eq!(decoration_spans(0, 100, &[(90, 120)]), vec![(0, 90)]);
}

#[test]
fn glyphs_reach_into_the_band() {
    assert!(reaches_band(0, 10, (10, 20)) && reaches_band(20, 30, (10, 20)));
    assert!(!reaches_band(0, 9, (10, 20)) && !reaches_band(21, 30, (10, 20)));
    assert_eq!(segment_bounds(&[3, -1, 7, 2]), (-1, 7));
    let nothing = (i64::MAX, -i64::MAX);
    assert_eq!(expand_rect_with_segment(nothing, (10, 20), &[4, 9], (1, 15), (30, 25)), (1, 9));
    assert_eq!(expand_rect_with_segment((2, 3), (10, 20), &[], (1, 9), (4, 20)), (2, 4));
    assert_eq!(expand_rect_with_segment(nothing, (10, 20), &[], (1, 9), (4, 21)), nothing);
}

#[test]
fn hinting_needs_a_uniform_scale() {
    let m = |a: f32, b: f32, c: f32, d: f32| [a.to_bits(), b.to_bits(), c.to_bits(), d.to_bits()];
    assert!(can_hint(m(2.0, 0.0, -0.0, 2.0)));
    assert!(!can_hint(m(2.0, 0.0, 0.0, 3.0)));
    assert!(!can_hint(m(2.0, 0.1, 0.0, 2.0)));
    assert!(!can_hint(m(-2.0, 0.0, 0.0, -2.0)));
    assert!(!can_hint(m(f32::NAN, 0.0, 0.0, f32::NAN)));
}

#[test]
fn colors_are_packed() {
    let pack = |c: [f32; 4]| Color {
        components: [c[0].to_bits(), c[1].to_bits(), c[2].to_bits(), c[3].to_bits()],
    };
    assert_eq!(pack([1.0, 0.5, 0.0, 1.0]).to_premultiplied_u32(), 0xff00_80ff);
    assert_eq!(pack([1.0, 1.0, 1.0, 0.5]).to_premultiplied_u32(), 0x8080_8080);
    assert_eq!(pack([0.3, 0.2, 0.1, 0.0]).to_premultiplied_u32(), 0);
    assert_eq!(Color::transparent().to_premultiplied_u32(), 0);
    let half = pack([0.25, 0.5, 0.75, 0.5]).multiply_alpha(0.5_f32.to_bits());
    assert_eq!(half.components, [0.25_f32, 0.5, 0.75, 0.25].map(f32::to_bits));
    let premul = PremulColor { components: [1.0_f32, 0.0, 0.2, 0.4].map(f32::to_bits) };
    assert_eq!(premul.to_u32(), 0x6633_00ff);
}

#[test]
fn numbers_are_written_in_decimal() {
    for n in [0, 7, 10, 909, u64::MAX] {
        assert_eq!(decimal(n), n.to_string());
    }
}

#[test]
fn settings_are_read_loosely() {
    assert_eq!(trim("  a b\t\n"), "a b");
    assert_eq!(trim("   "), "");
    assert!(reads_as("OFF", "off") && reads_as("off", "off") && !reads_as("offs", "off"));
    assert!(same_text("abc", "abc") && !same_text("abc", "abd") && !same_text("abc", "ab"));
}

#[test]
fn the_first_directory_with_the_module_is_searched() {
    let none = SharedModules {
        environment: false,
        beside_executable: false,
        bundle_library: false,
        bundle: false,
        checkout: false,
    };
    assert_eq!(slang_search_path(none), SlangDir::Embedded);
    assert_eq!(slang_search_path(SharedModules { checkout: true, ..none }), SlangDir::Checkout);
    assert_eq!(slang_search_path(SharedModules { checkout: true, bundle: true, ..none }), SlangDir::Bundle);
    let all = SharedModules {
        environment: true,
        beside_executable: true,
        bundle_library: true,
        bundle: true,
        checkout: true,
    };
    assert_eq!(slang_search_path(all), SlangDir::Environment);
    assert!(all.dir_has_shared(SlangDir::Bundle) && !none.dir_has_shared(SlangDir::Bundle));
    assert_eq!(SlangDir::BundleLibrary.below_executable(), Some("../Resources/ekrano/slang"));
    assert_eq!(SlangDir::Checkout.below_executable(), None);
}

#[test]
fn debug_layers_are_drawn() {
    let mut renderer = DebugRenderer::new();
    assert_eq!(renderer.bboxes, ShaderId(usize::MAX));
    renderer.clear_tint = ShaderId(1);
    renderer.bboxes = ShaderId(2);
    renderer.linesoup = ShaderId(3);
    renderer.linesoup_points = ShaderId(4);
    renderer.unpaired_points = ShaderId(5);
    let layout = Layout { n_paths: 12, ..Layout::default() };
    let sizes = RenderConfig::new(&layout, 30, 20, &Color::transparent()).buffer_sizes;
    let captured = CapturedBuffers { sizes };
    let bump = BumpAllocators { lines: 77, ..BumpAllocators::default() };
    let params = RenderParams {
        base_color: Color::transparent(),
        width: 30,
        height: 20,
        antialiasing_method: AaConfig::Area,
        robust: true,
    };
    let none =
        DebugLayers { bounding_boxes: false, linesoup_segments: false, linesoup_points: false, validation: false };
    assert!(none.is_empty());
    let found = |count: usize| UnpairedPoints { count, bytes: vec![7; count] };
    assert!(renderer.render(&captured, &bump, &params, found(3), none).is_none());
    let all = DebugLayers { bounding_boxes: true, linesoup_segments: true, linesoup_points: true, validation: true };
    let plan = renderer.render(&captured, &bump, &params, found(3), all).unwrap();
    let draws: Vec<(usize, u32, u32, bool)> =
        plan.draws.iter().map(|d| (d.shader_id.0, d.instance_count, d.vertex_count, d.unpaired_points)).collect();
    assert_eq!(
        draws,
        vec![(1, 1, 4, false), (2, 12, 5, false), (3, 77, 4, false), (4, 77, 4, false), (5, 3, 4, true)]
    );
    let points = plan.unpaired_points.unwrap();
    assert_eq!((points.label, points.stride, points.bytes), ("ekrano.debug.unpaired_points", 1, vec![7; 3]));
    assert_eq!((plan.uniforms.label, plan.uniforms.stride), ("ekrano.debug_uniforms", 1));
    assert_eq!(plan.uniforms.bytes, [30_u32.to_ne_bytes(), 20_u32.to_ne_bytes()].concat());
    let linepoints = plan.linepoints_uniforms;
    assert_eq!((linepoints.label, linepoints.stride), ("ekrano.debug.linepoints_uniforms", 256));
    assert_eq!(
        plan.deferred,
        vec!["ekrano.debug.vertex_buffer", "ekrano.debug_uniforms", "ekrano.debug.linepoints_uniforms"]
    );
    let words: Vec<f32> = linepoints
        .bytes
        .chunks_exact(4)
        .map(|b| f32::from_ne_bytes([b[0], b[1], b[2], b[3]]))
        .collect();
    assert_eq!(words.len(), 128);
    let cyan = peniko::color::palette::css::DARK_CYAN.components;
    assert_eq!(words[0..4], [cyan[0], cyan[1], cyan[2], 10.0]);
    assert_eq!(words[64..68], [1.0, 0.0, 0.0, 80.0]);
    let unmatched = renderer.render(&captured, &bump, &params, found(0), all).unwrap();
    assert_eq!(unmatched.draws.len(), 4, "validation found nothing");
    assert!(unmatched.unpaired_points.is_none());
    assert_eq!(unmatched.deferred, vec!["ekrano.debug_uniforms", "ekrano.debug.linepoints_uniforms"]);
    let downloads = DebugDownloads { lines: &[0; 72] };
    assert_eq!(downloads.lines_to_validate(all), Some(3));
    assert_eq!(downloads.lines_to_validate(none), None);
}
