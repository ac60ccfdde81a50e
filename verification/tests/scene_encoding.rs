use ekrano::color::{Color, ColorSpaceTag, DynamicColor, PremulColor};
use ekrano::coverage_mask::CoverageMask;
use ekrano::draw::{BlendMode, DrawBeginClip, DrawColor, DrawLinearGradient, DrawRadialGradient, DrawSweepGradient, DrawTag};
use ekrano::encoding::{Brush, ColorStop, Encoding, Gradient, GradientKind, IndexRange, MovedTransforms, Patch};
use ekrano::filter::FilterPrimitive;
use ekrano::image::{Extend, ImageAlphaType, ImageData, ImageQuality, ImageSampler};
use ekrano::path::{PathStreams, PathTag, Style, Transform};
use ekrano::resource_proxy::ImageFormat;
use std::sync::Arc;

fn bits(x: f32) -> u32 {
    x.to_bits()
}

fn color(r: u8, g: u8, b: u8, a: u8) -> Color {
    let c = peniko::Color::from_rgba8(r, g, b, a).components;
    Color { components: [bits(c[0]), bits(c[1]), bits(c[2]), bits(c[3])] }
}

fn stop(offset: f32, c: Color) -> ColorStop {
    let color = DynamicColor { cs: ColorSpaceTag::Srgb, missing: [false; 4], components: c.components };
    ColorStop { offset: bits(offset), color }
}

fn shift(dx: f32) -> Transform {
    Transform { xx: bits(1.0), xy: 0, yx: 0, yy: bits(1.0), dx: bits(dx), dy: 0 }
}

fn triangle() -> PathStreams {
    PathStreams { tags: vec![PathTag(0x9), PathTag(0x9), PathTag(PathTag::PATH)], data: vec![1, 2, 3, 4], n_segments: 2, n_paths: 1 }
}

fn picture() -> ImageData {
    ImageData { id: 8, format: ImageFormat::Bgra8, alpha_type: ImageAlphaType::AlphaPremultiplied, width: 3, height: 2 }
}

#[test]
fn new_encodings_are_empty() {
    let mut e = Encoding::new();
    assert!(e.is_empty());
    e.encode_color(DrawColor { rgba: 5 });
    assert!(e.is_empty(), "a brush alone encodes no path");
    e.encode_path(&triangle());
    assert!(!e.is_empty());
    e.reset();
    assert!(e.is_empty());
    assert!(e.draw_tags.is_empty() && e.draw_data.is_empty() && e.n_paths == 0);
}

#[test]
fn transforms_and_styles_are_encoded_once() {
    let mut e = Encoding::new();
    assert!(e.encode_transform(shift(1.0)));
    assert!(!e.encode_transform(shift(1.0)));
    assert!(e.encode_transform(shift(2.0)));
    let style = Style { flags_and_miter_limit: 1, line_width: bits(2.0) };
    e.encode_fill_style(style);
    e.encode_fill_style(style);
    assert_eq!(e.transforms.len(), 2);
    assert_eq!(e.styles.len(), 1);
    assert!(!e.encode_stroke_style(None));
    assert!(e.encode_stroke_style(Some(style)));
    assert_eq!(e.styles.len(), 1);
    e.force_next_transform_and_style();
    assert!(e.encode_transform(shift(2.0)));
    e.encode_style(style);
    assert_eq!((e.transforms.len(), e.styles.len()), (3, 2));
    assert_eq!(e.flags, 0);
    let tags: Vec<u8> = e.path_tags.iter().map(|t| t.0).collect();
    assert_eq!(tags, vec![0x20, 0x20, 0x40, 0x20, 0x40]);
}

#[test]
fn transforms_that_are_not_numbers_are_encoded_again() {
    let mut e = Encoding::new();
    assert!(e.encode_transform(shift(f32::NAN)));
    assert!(e.encode_transform(shift(f32::NAN)));
    assert!(e.encode_transform(shift(0.0)));
    assert!(!e.encode_transform(shift(-0.0)));
}

#[test]
fn paths_are_added() {
    let mut e = Encoding::new();
    assert!(e.encode_path(&triangle()));
    let dot = PathStreams { tags: vec![PathTag(PathTag::PATH)], data: vec![], n_segments: 0, n_paths: 1 };
    assert!(!e.encode_path(&dot));
    assert_eq!((e.n_paths, e.n_path_segments), (2, 2));
    assert_eq!(e.path_data, vec![1, 2, 3, 4]);
}

#[test]
fn blend_modes_take_a_path_slot() {
    let mut e = Encoding::new();
    e.encode_set_blend_mode(BlendMode { mix: 2, compose: 3 });
    assert_eq!(e.draw_tags, vec![DrawTag(DrawTag::SET_BLEND_MODE)]);
    assert_eq!(e.draw_data, vec![0x203]);
    assert_eq!(e.path_tags, vec![PathTag(PathTag::PATH)]);
    assert_eq!(e.n_paths, 1);
}

#[test]
fn gradients_need_two_stops() {
    let mut e = Encoding::new();
    let gradient = DrawLinearGradient { index: 0, p0: [bits(1.0), bits(2.0)], p1: [bits(3.0), bits(4.0)] };
    e.encode_linear_gradient(gradient, &[], bits(1.0), Extend::Pad);
    assert_eq!(e.draw_data, vec![0]);
    let red = color(255, 0, 0, 255);
    e.encode_linear_gradient(gradient, &[stop(0.5, red)], bits(1.0), Extend::Pad);
    assert_eq!(e.draw_data, vec![0, 0xff00_00ff]);
    assert!(e.resources.color_stops.is_empty());
    e.encode_linear_gradient(gradient, &[stop(0.0, red), stop(1.0, red)], bits(0.5), Extend::Repeat);
    assert_eq!(e.draw_tags[2], DrawTag(DrawTag::LINEAR_GRADIENT));
    assert_eq!(e.draw_data[2..], [0, bits(1.0), bits(2.0), bits(3.0), bits(4.0)]);
    assert_eq!(
        e.resources.patches,
        vec![Patch::Ramp { draw_data_offset: 2, stops: IndexRange { start: 0, end: 2 }, extend: Extend::Repeat }]
    );
    assert_eq!(f32::from_bits(e.resources.color_stops[1].color.components[3]), 0.5);
}

#[test]
fn stops_of_other_spaces_are_converted() {
    let mut e = Encoding::new();
    let gradient = DrawLinearGradient { index: 0, p0: [0, 0], p1: [0, 0] };
    let white = |cs: ColorSpaceTag| DynamicColor { cs, missing: [false; 4], components: [bits(1.0); 4] };
    let one = [ColorStop { offset: 0, color: white(ColorSpaceTag::LinearSrgb) }];
    e.encode_linear_gradient(gradient, &one, bits(1.0), Extend::Pad);
    assert_eq!(e.draw_data, vec![0xffff_ffff]);
    let mut no_alpha = white(ColorSpaceTag::Srgb);
    no_alpha.missing[3] = true;
    no_alpha.components[3] = 0;
    let two = [ColorStop { offset: 0, color: no_alpha }, ColorStop { offset: 0, color: white(ColorSpaceTag::Oklab) }];
    e.encode_linear_gradient(gradient, &two, bits(0.5), Extend::Pad);
    let stops = &e.resources.color_stops;
    assert_eq!((stops[0].color.missing[3], stops[0].color.components[3]), (true, 0), "there is no alpha to scale");
    assert_eq!((stops[1].color.cs, f32::from_bits(stops[1].color.components[3])), (ColorSpaceTag::Oklab, 0.5));
}

#[test]
fn clones_are_encodings_of_their_own() {
    let mut e = Encoding::new();
    e.encode_transform(shift(1.0));
    e.encode_path(&triangle());
    e.encode_linear_gradient(
        DrawLinearGradient { index: 0, p0: [0, 0], p1: [0, 0] },
        &[stop(0.0, color(1, 2, 3, 4)), stop(1.0, color(5, 6, 7, 8))],
        bits(1.0),
        Extend::Pad,
    );
    e.encode_begin_clip(DrawBeginClip::clip());
    e.coverage_mask = CoverageMask::new(1, 1, Arc::new(vec![9]));
    let copy = e.clone();
    assert_eq!(copy.stream_offsets(), e.stream_offsets());
    assert_eq!((&copy.path_data, &copy.draw_data), (&e.path_data, &e.draw_data));
    assert_eq!((&copy.resources.patches, copy.resources.color_stops.len()), (&e.resources.patches, 2));
    assert_eq!((copy.n_open_clips, copy.begin_clip_stack.len()), (1, 1));
    assert!(copy.coverage_mask.is_some());
    e.encode_end_clip();
    assert_eq!((copy.n_open_clips, e.n_open_clips), (1, 0));
}

#[test]
fn appending_joins_in_any_order() {
    let part = |x: f32| {
        let mut e = Encoding::new();
        e.encode_transform(shift(x));
        e.encode_path(&triangle());
        e.encode_color(DrawColor { rgba: x as u32 });
        e
    };
    let (a, b, c) = (part(1.0), part(2.0), part(3.0));
    let moved = |xs: &[f32]| {
        Some(MovedTransforms { transforms: xs.iter().map(|x| shift(*x)).collect(), run_transforms: vec![] })
    };
    let mut left = a.clone();
    left.append(&b, &moved(&[12.0]));
    left.append(&c, &moved(&[13.0]));
    let mut bc = b.clone();
    bc.append(&c, &None);
    let mut right = a.clone();
    right.append(&bc, &moved(&[12.0, 13.0]));
    assert_eq!(left.transforms, vec![shift(1.0), shift(12.0), shift(13.0)]);
    assert_eq!((left.transforms.clone(), left.draw_data.clone()), (right.transforms.clone(), right.draw_data.clone()));
    let mut expected = a.stream_offsets();
    expected.add(&bc.stream_offsets());
    assert_eq!((left.stream_offsets(), right.stream_offsets()), (expected, expected));
}

#[test]
fn degenerate_gradients_are_transparent() {
    let stops = [stop(0.0, color(255, 0, 0, 255)), stop(1.0, color(0, 255, 0, 255))];
    let mut e = Encoding::new();
    let point = [bits(1.0), bits(1.0)];
    let radial = DrawRadialGradient { index: 0, p0: point, p1: point, r0: bits(2.0), r1: bits(2.0) };
    e.encode_radial_gradient(radial, true, &stops, bits(1.0), Extend::Pad);
    assert_eq!((e.draw_tags[0], e.draw_data.clone()), (DrawTag(DrawTag::COLOR), vec![0]));
    e.encode_radial_gradient(radial, false, &stops, bits(1.0), Extend::Pad);
    assert_eq!(e.draw_tags[1], DrawTag(DrawTag::RADIAL_GRADIENT));
    assert_eq!(e.draw_data.len(), 1 + 7);
    let sweep = DrawSweepGradient { index: 0, p0: point, t0: bits(0.0), t1: bits(0.5) };
    e.encode_sweep_gradient(sweep, true, &stops, bits(1.0), Extend::Pad);
    assert_eq!(e.draw_tags[2], DrawTag(DrawTag::COLOR));
    e.encode_sweep_gradient(sweep, false, &stops, bits(1.0), Extend::Pad);
    assert_eq!(e.draw_tags[3], DrawTag(DrawTag::SWEEP_GRADIENT));
}

#[test]
fn images_are_patched_in_later() {
    let mut e = Encoding::new();
    e.encode_color(DrawColor { rgba: 1 });
    let sampler =
        ImageSampler { x_extend: Extend::Repeat, y_extend: Extend::Reflect, quality: ImageQuality::High, alpha: 128 };
    e.encode_image(picture(), sampler);
    assert_eq!(e.resources.patches, vec![Patch::Image { image: picture(), draw_data_offset: 1 }]);
    assert_eq!(e.draw_data[1..], [0, (3 << 16) | 2, 1 << 15 | 1 << 14 | 2 << 12 | 1 << 10 | 2 << 8 | 128]);
}

#[test]
fn brushes_are_told_apart() {
    let mut e = Encoding::new();
    e.encode_brush(&Brush::Solid(color(255, 255, 255, 255)), bits(1.0));
    e.encode_brush(&Brush::Solid(color(255, 255, 255, 255)), bits(0.0));
    let stops = vec![stop(0.0, color(255, 0, 0, 255)), stop(1.0, color(0, 255, 0, 255))];
    let kind = GradientKind::Linear { start: [bits(1.0), 0], end: [bits(2.0), 0] };
    e.encode_brush(&Brush::Gradient(Gradient { kind, extend: Extend::Pad, stops }), bits(1.0));
    let sampler =
        ImageSampler { x_extend: Extend::Pad, y_extend: Extend::Pad, quality: ImageQuality::Low, alpha: 255 };
    e.encode_brush(&Brush::Image { image: picture(), sampler }, bits(1.0));
    let tags: Vec<u32> = e.draw_tags.iter().map(|t| t.0).collect();
    assert_eq!(tags, vec![DrawTag::COLOR, DrawTag::COLOR, DrawTag::LINEAR_GRADIENT, DrawTag::IMAGE]);
    assert_eq!(e.draw_data[0], u32::MAX);
    assert_eq!(e.draw_data[1], 0);
    assert_eq!(e.draw_data[2..7], [0, bits(1.0), 0, bits(2.0), 0]);
}

#[test]
fn blurred_rectangles_are_encoded() {
    let mut e = Encoding::new();
    e.encode_blurred_rounded_rect(DrawColor { rgba: 7 }, bits(1.0), bits(2.0), bits(3.0), bits(4.0));
    assert_eq!(e.draw_tags, vec![DrawTag(DrawTag::BLUR_RECT)]);
    assert_eq!(e.draw_data, vec![7, bits(1.0), bits(2.0), bits(3.0), bits(4.0)]);
}

#[test]
fn clips_begin_and_end() {
    let mut e = Encoding::new();
    let clip = DrawBeginClip::clip();
    e.encode_begin_clip(clip);
    assert_eq!((e.n_clips, e.n_open_clips, e.n_paths), (1, 1, 0));
    assert_eq!(e.draw_data, vec![clip.blend_mode, clip.alpha, 0]);
    e.encode_end_clip();
    assert_eq!((e.n_clips, e.n_open_clips, e.n_paths), (2, 0, 1));
    assert_eq!(e.draw_tags, vec![DrawTag(DrawTag::BEGIN_CLIP), DrawTag(DrawTag::END_CLIP)]);
    assert_eq!(e.draw_data[3..], [clip.blend_mode, clip.alpha]);
    e.encode_end_clip();
    assert_eq!(e.n_clips, 2, "there is nothing to end");
}

#[test]
fn filters_belong_to_the_layer_that_begins_next() {
    let mut e = Encoding::new();
    let filter = FilterPrimitive::Offset { dx: bits(1.0), dy: bits(2.0) };
    let params = DrawBeginClip::new(BlendMode { mix: 0, compose: 3 }, bits(0.25));
    e.set_pending_layer_filter(Some(filter));
    e.encode_begin_clip(params);
    assert!(e.pending_layer_filter.is_none());
    e.encode_begin_clip(DrawBeginClip::clip());
    e.encode_end_clip();
    assert!(e.layer_filter_effects.is_empty());
    e.encode_end_clip();
    assert_eq!(e.layer_filter_effects.len(), 1);
    let effect = e.layer_filter_effects[0];
    assert_eq!((effect.layer_blend, effect.layer_alpha, effect.layer_index), (params.blend_mode, params.alpha, 0));
    assert!(matches!(effect.primitive, FilterPrimitive::Offset { .. }));
    assert_eq!(e.draw_tags.last(), Some(&DrawTag(DrawTag::END_CLIP_FILTER)));
    e.set_pending_layer_filter(Some(FilterPrimitive::Flood {
        color: PremulColor { components: [0; 4] },
        clip_rect: [0; 4],
    }));
    let at = e.draw_data.len();
    e.encode_begin_clip(params);
    e.encode_end_clip();
    assert_eq!(e.draw_data[at + 2], 1, "the second effect is filed behind the first");
    assert_eq!(e.draw_data.last(), Some(&1));
}

#[test]
fn path_tags_can_be_swapped() {
    let mut e = Encoding::new();
    e.encode_transform(shift(1.0));
    e.encode_style(Style { flags_and_miter_limit: 0, line_width: 0 });
    e.swap_last_path_tags();
    assert_eq!(e.path_tags, vec![PathTag(PathTag::STYLE), PathTag(PathTag::TRANSFORM)]);
}

#[test]
fn appending_rebases_offsets() {
    let stops = [stop(0.0, color(255, 0, 0, 255)), stop(1.0, color(0, 255, 0, 255))];
    let gradient = DrawLinearGradient { index: 0, p0: [0, 0], p1: [0, 0] };
    let mut a = Encoding::new();
    a.encode_transform(shift(1.0));
    a.encode_linear_gradient(gradient, &stops, bits(1.0), Extend::Pad);
    let mut b = Encoding::new();
    b.encode_transform(shift(2.0));
    b.encode_path(&triangle());
    b.encode_linear_gradient(gradient, &stops, bits(1.0), Extend::Pad);
    b.force_next_transform_and_style();
    b.coverage_mask = CoverageMask::new(1, 1, Arc::new(vec![9]));
    let before = a.stream_offsets();
    a.append(&b, &None);
    assert_eq!(
        a.resources.patches[1],
        Patch::Ramp { draw_data_offset: 5, stops: IndexRange { start: 2, end: 4 }, extend: Extend::Pad }
    );
    assert_eq!(a.transforms, vec![shift(1.0), shift(2.0)]);
    assert_eq!(a.flags, 3);
    assert!(a.coverage_mask.is_some());
    let mut expected = before;
    expected.add(&b.stream_offsets());
    assert_eq!(a.stream_offsets(), expected);
    let mut c = Encoding::new();
    c.append(&b, &Some(MovedTransforms { transforms: vec![shift(7.0)], run_transforms: vec![] }));
    assert_eq!(c.transforms, vec![shift(7.0)]);
}

#[test]
fn clips_that_are_still_open_move_with_their_data() {
    let mut a = Encoding::new();
    a.encode_color(DrawColor { rgba: 3 });
    let mut b = Encoding::new();
    b.set_pending_layer_filter(Some(FilterPrimitive::Offset { dx: 0, dy: 0 }));
    b.encode_begin_clip(DrawBeginClip::clip());
    a.append(&b, &None);
    assert_eq!(a.begin_clip_stack[0].layer_idx_slot, 3);
    a.encode_end_clip();
    assert_eq!(a.n_open_clips, 0);
    assert_eq!(a.draw_data[0], 3, "the color is left alone");
    assert_eq!(a.layer_filter_effects.len(), 1);
}

#[test]
fn masks_have_a_byte_per_pixel() {
    assert!(CoverageMask::new(2, 2, Arc::new(vec![0; 4])).is_some());
    assert!(CoverageMask::new(2, 2, Arc::new(vec![0; 5])).is_none());
}
