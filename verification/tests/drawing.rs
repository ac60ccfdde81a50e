use ekrano::color::{Color, ColorSpaceTag, DynamicColor, OpaqueColor, PremulColor};
use ekrano::draw::{BlendMode, DrawBeginClip, DrawColor, DrawMonoid, DrawTag, Tint, TintMode};
use ekrano::image::{pack_sampling, pack_size, Extend, ImageAlphaType, ImageData, ImageQuality, ImageSampler};
use ekrano::resource_proxy::ImageFormat;

fn color(c: peniko::Color) -> Color {
    let c = c.components;
    Color { components: [c[0].to_bits(), c[1].to_bits(), c[2].to_bits(), c[3].to_bits()] }
}

#[test]
fn draw_color_endianness() {
    // `DrawColor` should be packed little-endian with red the least significant byte.
    let c = color(peniko::Color::from_rgba8(0x00, 0xca, 0xfe, 0xff));
    assert_eq!(bytemuck::bytes_of(&DrawColor::from(c).rgba), [0x00, 0xca, 0xfe, 0xff]);
}

#[test]
fn draw_color_premultiplied() {
    let c = color(peniko::Color::from_rgba8(0x00, 0xca, 0xfe, 0x00));
    assert_eq!(DrawColor::from(c).rgba, 0);
}

#[test]
fn half_transparent_colors_are_premultiplied() {
    let c = peniko::Color::from_rgba8(0xff, 0x80, 0x00, 0x80);
    let expected = c.premultiply().to_rgba8().to_u8_array();
    let packed = DrawColor::from(color(c)).rgba;
    assert_eq!(packed.to_le_bytes(), expected);
    assert_ne!(packed.to_le_bytes()[0], 0xff);
    let p = c.premultiply().components;
    let premul = PremulColor { components: [p[0].to_bits(), p[1].to_bits(), p[2].to_bits(), p[3].to_bits()] };
    assert_eq!(DrawColor::from(premul).rgba, packed);
    assert_eq!(premul.to_u32(), packed);
}

#[test]
fn alpha_is_multiplied() {
    let c = color(peniko::Color::from_rgba8(0x10, 0x20, 0x30, 0xff));
    let half = c.multiply_alpha(0.5_f32.to_bits());
    assert_eq!(half.components[0], c.components[0]);
    assert_eq!(half.components[1], c.components[1]);
    assert_eq!(half.components[2], c.components[2]);
    assert_eq!(f32::from_bits(half.components[3]), 0.5);
    assert_eq!(Color::transparent().to_premultiplied_u32(), 0);
}

#[test]
fn ensure_image_quality_values() {
    assert_eq!(ImageQuality::Low.as_u32(), 0);
    assert_eq!(ImageQuality::Medium.as_u32(), 1);
    assert_eq!(ImageQuality::High.as_u32(), 2);
    assert_eq!(peniko::ImageQuality::Low as u32, 0);
    assert_eq!(peniko::ImageQuality::Medium as u32, 1);
    assert_eq!(peniko::ImageQuality::High as u32, 2);
    // exhaustive match to catch new variants
    match peniko::ImageQuality::Low {
        peniko::ImageQuality::Low | peniko::ImageQuality::Medium | peniko::ImageQuality::High => {}
    }
}

#[test]
fn ensure_extend_values() {
    assert_eq!(Extend::Pad.as_u32(), 0);
    assert_eq!(Extend::Repeat.as_u32(), 1);
    assert_eq!(Extend::Reflect.as_u32(), 2);
    assert_eq!(peniko::Extend::Pad as u32, 0);
    assert_eq!(peniko::Extend::Repeat as u32, 1);
    assert_eq!(peniko::Extend::Reflect as u32, 2);
    // exhaustive match to catch new variants
    match peniko::Extend::Pad {
        peniko::Extend::Pad | peniko::Extend::Repeat | peniko::Extend::Reflect => {}
    }
}

#[test]
fn image_sizes_and_sampling_are_packed() {
    assert_eq!(pack_size(3, 5), (3 << 16) | 5);
    let image = ImageData {
        id: 1,
        format: ImageFormat::Rgba8,
        alpha_type: ImageAlphaType::Alpha,
        width: 3,
        height: 5,
    };
    let plain =
        ImageSampler { x_extend: Extend::Pad, y_extend: Extend::Pad, quality: ImageQuality::Low, alpha: 255 };
    let other = ImageSampler { y_extend: Extend::Reflect, alpha: 7, ..plain };
    let a = pack_sampling(&image, &plain);
    let b = pack_sampling(&image, &other);
    assert_eq!(a & 0xff, 255);
    assert_eq!(b & 0xff, 7);
    assert_ne!(a >> 8, b >> 8);
}

#[test]
fn monoids_count_objects() {
    let path = DrawMonoid::new(DrawTag(DrawTag::COLOR));
    let clip = DrawMonoid::new(DrawTag(DrawTag::BEGIN_CLIP));
    assert_eq!(path.path_ix, 1);
    assert_eq!(clip.clip_ix, 1);
    let both = path.combine(&clip);
    assert_eq!(both.path_ix, 2);
    assert_eq!(both.clip_ix, 1);
    assert_eq!(both.scene_offset, path.scene_offset + clip.scene_offset);
    let nop = DrawMonoid::new(DrawTag(0));
    assert_eq!(nop.combine(&both), both);
    assert_eq!(both.combine(&nop), both);
}

#[test]
fn clips_carry_their_blend_mode() {
    let normal = DrawBeginClip::new(BlendMode { mix: 1, compose: 3 }, 0.5_f32.to_bits());
    assert_eq!(normal.blend_mode, (1 << 8) | 3);
    assert_eq!(f32::from_bits(normal.alpha), 0.5);
    assert_eq!(f32::from_bits(DrawBeginClip::clip().alpha), 1.0);
    assert_ne!(DrawBeginClip::clip().blend_mode, DrawBeginClip::luminance_mask(0).blend_mode);
    assert_ne!(TintMode::AlphaMask.as_u32(), TintMode::Multiply.as_u32());
}

#[test]
fn tags_hold_the_size_of_their_info() {
    let tags = [
        DrawTag::NOP,
        DrawTag::COLOR,
        DrawTag::LINEAR_GRADIENT,
        DrawTag::RADIAL_GRADIENT,
        DrawTag::SWEEP_GRADIENT,
        DrawTag::IMAGE,
        DrawTag::IMAGE_TINTED,
        DrawTag::BLUR_RECT,
        DrawTag::BEGIN_CLIP,
        DrawTag::END_CLIP,
    ];
    let sizes: Vec<u32> = tags.iter().map(|tag| DrawTag(*tag).info_size()).collect();
    assert_eq!(sizes, vec![0, 1, 4, 10, 9, 10, 11, 11, 1, 0]);
}

#[test]
fn colors_of_any_space_are_packed() {
    let bits = |c: [f32; 4]| [c[0].to_bits(), c[1].to_bits(), c[2].to_bits(), c[3].to_bits()];
    let opaque = OpaqueColor { components: [1.0_f32.to_bits(), 0, 0.5_f32.to_bits()] };
    assert_eq!(DrawColor::from(opaque).rgba, 0xff80_00ff);
    let same = DynamicColor { cs: ColorSpaceTag::Srgb, missing: [false; 4], components: bits([1.0, 0.0, 0.5, 1.0]) };
    assert_eq!(DrawColor::from(same).rgba, 0xff80_00ff);
    let spaces = [
        (ColorSpaceTag::Srgb, peniko::color::ColorSpaceTag::Srgb),
        (ColorSpaceTag::LinearSrgb, peniko::color::ColorSpaceTag::LinearSrgb),
        (ColorSpaceTag::Lab, peniko::color::ColorSpaceTag::Lab),
        (ColorSpaceTag::Lch, peniko::color::ColorSpaceTag::Lch),
        (ColorSpaceTag::Hsl, peniko::color::ColorSpaceTag::Hsl),
        (ColorSpaceTag::Hwb, peniko::color::ColorSpaceTag::Hwb),
        (ColorSpaceTag::Oklab, peniko::color::ColorSpaceTag::Oklab),
        (ColorSpaceTag::Oklch, peniko::color::ColorSpaceTag::Oklch),
        (ColorSpaceTag::DisplayP3, peniko::color::ColorSpaceTag::DisplayP3),
        (ColorSpaceTag::A98Rgb, peniko::color::ColorSpaceTag::A98Rgb),
        (ColorSpaceTag::ProphotoRgb, peniko::color::ColorSpaceTag::ProphotoRgb),
        (ColorSpaceTag::Rec2020, peniko::color::ColorSpaceTag::Rec2020),
        (ColorSpaceTag::AcesCg, peniko::color::ColorSpaceTag::AcesCg),
        (ColorSpaceTag::XyzD50, peniko::color::ColorSpaceTag::XyzD50),
        (ColorSpaceTag::XyzD65, peniko::color::ColorSpaceTag::XyzD65),
        (ColorSpaceTag::Aces2065_1, peniko::color::ColorSpaceTag::Aces2065_1),
    ];
    let values = [0.75, 0.25, 0.5, 0.5];
    for (cs, outside) in spaces {
        for lacks in [0, 1, 2, 3] {
            let flags = peniko::color::Flags::from_missing(peniko::color::Missing::single(lacks));
            let expected = peniko::color::DynamicColor { cs: outside, flags, components: values }
                .to_alpha_color::<peniko::color::Srgb>()
                .components;
            let mut missing = [false; 4];
            missing[lacks] = true;
            let srgb = DynamicColor { cs, missing, components: bits(values) }.to_srgb();
            assert_eq!(srgb.components, bits(expected), "{cs:?} without {lacks}");
        }
    }
}

#[test]
fn tints_are_compared_as_numbers() {
    let tint = |r: f32, mode: TintMode| Tint { color: Color { components: [r.to_bits(), 0, 0, 0] }, mode };
    assert!(tint(0.0, TintMode::Multiply) == tint(-0.0, TintMode::Multiply));
    assert!(tint(0.0, TintMode::Multiply) != tint(0.0, TintMode::AlphaMask));
    assert!(tint(f32::NAN, TintMode::Multiply) != tint(f32::NAN, TintMode::Multiply));
}

#[test]
fn colors_without_alpha_pack_to_zero() {
    for component in [1.0, -1.0, f32::INFINITY, f32::NAN, -0.0] {
        let c = [component.to_bits(), 1.0_f32.to_bits(), component.to_bits(), 0];
        assert_eq!(DrawColor::from(Color { components: c }).rgba, 0);
    }
    let nan = [f32::NAN.to_bits(), 0xffc0_0001, 1.0_f32.to_bits(), 1.0_f32.to_bits()];
    assert_eq!(DrawColor::from(Color { components: nan }).rgba, 0xffff_0000);
}
