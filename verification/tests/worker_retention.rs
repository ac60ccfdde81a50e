use ekrano::color::PremulColor;
use ekrano::config::BufferSizes;
use ekrano::filter::{FilterEdgeMode, FilterPrimitive, LayerFilterEffect};
use ekrano::goldy_renderer::{PersistentState, SceneGrowthStats, SchemeTargets, TargetTexture};
use ekrano::resource_proxy::TextureFormat;
use ekrano::worker_retention::{
    changed_worker_resource, filter_primitive_eq, layer_filter_effects_eq, note_scene_bucket_crossing,
    note_scene_growth_frame, note_upload_rerecord_scene_bucket, note_worker_rerecord_scene_bucket,
    predict_worker_stale, resource_dims, scene_size_bucket, upload_key_from, upload_stale, worker_stale_reasons,
    UploadKey, WorkerResourceHandles, WorkerTopology,
};
use ekrano::AaConfig;

fn premul(color: peniko::Color) -> PremulColor {
    let c = color.premultiply().components;
    PremulColor { components: [c[0].to_bits(), c[1].to_bits(), c[2].to_bits(), c[3].to_bits()] }
}

fn upload_key(
    scene_bucket: u64,
    ramps_width: u32,
    ramps_height: u32,
    image_count: usize,
    images_width: u32,
    images_height: u32,
    coverage_mask_dims: Option<(u32, u32)>,
    image_regions: &[(u32, u32, u32, u32)],
) -> UploadKey {
    upload_key_from(&resource_dims(
        scene_bucket,
        ramps_width,
        ramps_height,
        image_count,
        images_width,
        images_height,
        coverage_mask_dims,
        image_regions,
    ))
}

fn base_upload_key() -> UploadKey {
    upload_key(256, 8, 4, 0, 0, 0, None, &[])
}

#[test]
fn upload_key_empty_gradient_normalises_to_1x1() {
    let k = upload_key(64, 32, 0, 0, 0, 0, None, &[]);
    assert_eq!((k.gradient_width, k.gradient_height), (1, 1));
}

#[test]
fn upload_key_nonempty_gradient_uses_raw_dims() {
    let k = upload_key(64, 32, 4, 0, 0, 0, None, &[]);
    assert_eq!((k.gradient_width, k.gradient_height), (32, 4));
}

#[test]
fn upload_key_empty_image_atlas_normalises_to_1x1() {
    let k = upload_key(64, 8, 4, 0, 512, 512, None, &[]);
    assert_eq!((k.image_atlas_width, k.image_atlas_height), (1, 1));
}

#[test]
fn upload_key_nonempty_image_atlas_uses_raw_dims() {
    let k = upload_key(64, 8, 4, 3, 512, 256, None, &[]);
    assert_eq!((k.image_atlas_width, k.image_atlas_height), (512, 256));
}

#[test]
fn upload_key_no_coverage_mask_normalises_to_1x1() {
    let k = upload_key(64, 8, 4, 0, 0, 0, None, &[]);
    assert_eq!((k.mask_atlas_width, k.mask_atlas_height), (1, 1));
}

#[test]
fn upload_key_coverage_mask_uses_mask_dims() {
    let k = upload_key(64, 8, 4, 0, 0, 0, Some((128, 64)), &[]);
    assert_eq!((k.mask_atlas_width, k.mask_atlas_height), (128, 64));
}

#[test]
fn upload_stale_false_when_key_unchanged() {
    let mut p = PersistentState::new(false);
    let k = base_upload_key();
    p.cached_upload_key = Some(k.clone());
    assert!(!upload_stale(&p, &k));
}

#[test]
fn upload_stale_true_when_no_cached_key() {
    let p = PersistentState::new(false);
    let k = base_upload_key();
    assert!(upload_stale(&p, &k));
}

#[test]
fn upload_stale_true_on_scene_bucket_growth() {
    let mut p = PersistentState::new(false);
    let k1 = upload_key(256, 8, 4, 0, 0, 0, None, &[]);
    let k2 = upload_key(512, 8, 4, 0, 0, 0, None, &[]);
    p.cached_upload_key = Some(k1);
    assert!(upload_stale(&p, &k2));
}

#[test]
fn upload_stale_true_on_gradient_dim_change() {
    let mut p = PersistentState::new(false);
    let k1 = upload_key(256, 8, 4, 0, 0, 0, None, &[]);
    let k2 = upload_key(256, 8, 16, 0, 0, 0, None, &[]);
    p.cached_upload_key = Some(k1);
    assert!(upload_stale(&p, &k2));
}

#[test]
fn upload_stale_true_when_gradient_appears() {
    let mut p = PersistentState::new(false);
    let k1 = upload_key(256, 0, 0, 0, 0, 0, None, &[]);
    let k2 = upload_key(256, 8, 4, 0, 0, 0, None, &[]);
    p.cached_upload_key = Some(k1);
    assert!(upload_stale(&p, &k2));
}

#[test]
fn upload_stale_true_on_image_atlas_dim_change() {
    let mut p = PersistentState::new(false);
    let k1 = upload_key(256, 8, 4, 3, 512, 256, None, &[]);
    let k2 = upload_key(256, 8, 4, 3, 512, 512, None, &[]);
    p.cached_upload_key = Some(k1);
    assert!(upload_stale(&p, &k2));
}

#[test]
fn upload_stale_true_when_image_atlas_appears() {
    let mut p = PersistentState::new(false);
    let k1 = upload_key(256, 8, 4, 0, 0, 0, None, &[]);
    let k2 = upload_key(256, 8, 4, 2, 256, 256, None, &[]);
    p.cached_upload_key = Some(k1);
    assert!(upload_stale(&p, &k2));
}

#[test]
fn upload_stale_true_on_mask_atlas_dim_change() {
    let mut p = PersistentState::new(false);
    let k1 = upload_key(256, 8, 4, 0, 0, 0, Some((64, 64)), &[]);
    let k2 = upload_key(256, 8, 4, 0, 0, 0, Some((128, 64)), &[]);
    p.cached_upload_key = Some(k1);
    assert!(upload_stale(&p, &k2));
}

#[test]
fn upload_stale_true_when_mask_appears() {
    let mut p = PersistentState::new(false);
    let k1 = upload_key(256, 8, 4, 0, 0, 0, None, &[]);
    let k2 = upload_key(256, 8, 4, 0, 0, 0, Some((64, 64)), &[]);
    p.cached_upload_key = Some(k1);
    assert!(upload_stale(&p, &k2));
}

#[test]
fn upload_stale_true_on_image_region_layout_change() {
    let mut p = PersistentState::new(false);
    let k1 = upload_key(256, 8, 4, 2, 256, 256, None, &[(0, 0, 32, 32)]);
    let k2 = upload_key(256, 8, 4, 2, 256, 256, None, &[(0, 0, 32, 32), (40, 0, 16, 16)]);
    p.cached_upload_key = Some(k1);
    assert!(upload_stale(&p, &k2));
}

#[test]
fn regions_are_sorted_and_unique() {
    let k = upload_key(
        256,
        8,
        4,
        3,
        256,
        256,
        None,
        &[(40, 0, 16, 16), (0, 8, 4, 4), (40, 0, 16, 16), (0, 0, 32, 32)],
    );
    assert_eq!(k.image_regions, vec![(0, 0, 32, 32), (0, 8, 4, 4), (40, 0, 16, 16)]);
    let other = upload_key(
        256,
        8,
        4,
        3,
        256,
        256,
        None,
        &[(0, 0, 32, 32), (40, 0, 16, 16), (0, 8, 4, 4), (0, 8, 4, 4)],
    );
    assert!(k.same(&other));
}

fn blur(std_dev: f32) -> LayerFilterEffect {
    LayerFilterEffect {
        primitive: FilterPrimitive::GaussianBlur { std_dev: std_dev.to_bits(), edge_mode: FilterEdgeMode::Duplicate },
        layer_blend: 1,
        layer_alpha: 1.0_f32.to_bits(),
        layer_index: 0,
        is_nested: false,
    }
}

#[test]
fn filter_effects_eq_matches_identical() {
    let a = blur(2.0);
    let b = a.clone();
    assert!(layer_filter_effects_eq(&[a], &[b]));
}

#[test]
fn filter_effects_eq_detects_color_change() {
    let a = LayerFilterEffect {
        primitive: FilterPrimitive::Flood {
            color: premul(peniko::color::palette::css::RED),
            clip_rect: [0, 0, 10, 10],
        },
        layer_blend: 1,
        layer_alpha: 1.0_f32.to_bits(),
        layer_index: 0,
        is_nested: false,
    };
    let mut b = a.clone();
    if let FilterPrimitive::Flood { color, .. } = &mut b.primitive {
        *color = premul(peniko::color::palette::css::BLUE);
    }
    assert!(!layer_filter_effects_eq(&[a], &[b]));
}

#[test]
fn filter_effects_differ_in_number_and_kind() {
    assert!(layer_filter_effects_eq(&[], &[]));
    assert!(!layer_filter_effects_eq(&[blur(2.0)], &[]));
    assert!(!layer_filter_effects_eq(&[blur(2.0)], &[blur(3.0)]));
    let offset = FilterPrimitive::Offset { dx: 1.0_f32.to_bits(), dy: 2.0_f32.to_bits() };
    assert!(!filter_primitive_eq(&blur(2.0).primitive, &offset));
    assert!(filter_primitive_eq(&offset, &offset));
}

#[test]
fn filter_numbers_may_differ_by_an_epsilon() {
    let near = blur(1.0 + f32::EPSILON);
    let far = blur(1.0 + 2.0 * f32::EPSILON);
    assert!(layer_filter_effects_eq(&[blur(1.0)], &[near]));
    assert!(!layer_filter_effects_eq(&[blur(1.0)], &[far]));
}

fn sample_topology(direct_present: bool) -> WorkerTopology {
    WorkerTopology {
        aa: AaConfig::Area,
        robust: false,
        out_format: TextureFormat::Rgba8Unorm,
        width: 64,
        height: 64,
        buffer_sizes: BufferSizes::default(),
        has_coverage_mask: false,
        ramps_width: 1,
        ramps_height: 1,
        images_width: 1,
        images_height: 1,
        image_count: 0,
        swapchain_present: true,
        direct_present,
        scene_bucket: 256,
        mask_atlas_width: 1,
        mask_atlas_height: 1,
    }
}

#[test]
fn worker_stale_when_direct_present_mode_changes() {
    let mut p = PersistentState::new(false);
    let copy_topo = sample_topology(false);
    let direct_topo = sample_topology(true);
    p.cached_worker_topology = Some(copy_topo.clone());
    assert!(worker_stale_reasons(&p, &direct_topo, &[], None, None));
    p.cached_worker_topology = Some(direct_topo.clone());
    assert!(!worker_stale_reasons(&p, &direct_topo, &[], None, None));
}

#[test]
fn worker_stale_when_filter_effects_non_empty() {
    let mut p = PersistentState::new(false);
    let topo = sample_topology(false);
    p.cached_worker_topology = Some(topo.clone());
    let effect = blur(2.0);
    // Cached effects match — descriptor equality alone is not enough to retain.
    p.cached_worker_filter_effects = vec![effect.clone()];
    assert!(
        worker_stale_reasons(&p, &topo, &[effect], None, None),
        "filter frames bind per-submit scratches; worker must not be retained"
    );
    assert!(predict_worker_stale(&p, &topo, &[blur(2.0)], None, 64, 64, TextureFormat::Rgba8Unorm));
}

#[test]
fn predict_worker_stale_false_in_direct_present_without_out_image() {
    let mut p = PersistentState::new(false);
    let topo = sample_topology(true);
    p.cached_worker_topology = Some(topo.clone());
    assert!(!predict_worker_stale(&p, &topo, &[], None, 64, 64, TextureFormat::Rgba8Unorm));
}

#[test]
fn worker_stale_when_an_image_changes() {
    let mut p = PersistentState::new(false);
    let topo = sample_topology(false);
    p.cached_worker_topology = Some(topo.clone());
    p.cached_worker_out_image = Some(7);
    assert!(!worker_stale_reasons(&p, &topo, &[], Some(7), None));
    assert!(worker_stale_reasons(&p, &topo, &[], Some(8), None));
    assert!(worker_stale_reasons(&p, &topo, &[], Some(7), Some(1)));
    p.cached_worker_topology = None;
    assert!(worker_stale_reasons(&p, &topo, &[], Some(7), None));
}

#[test]
fn prediction_looks_at_the_cached_targets() {
    let mut p = PersistentState::new(false);
    let topo = sample_topology(false);
    p.cached_worker_topology = Some(topo.clone());
    p.cached_worker_out_image = Some(3);
    let layer = TargetTexture { handle: 10, width: 64, height: 64, format: TextureFormat::Rgba8Unorm };
    let out = TargetTexture { handle: 3, width: 64, height: 64, format: TextureFormat::Rgba8Unorm };
    assert!(predict_worker_stale(&p, &topo, &[], None, 64, 64, TextureFormat::Rgba8Unorm));
    p.cached_scheme_rt = Some(SchemeTargets { out: Some(out), layers: [layer; 4], timeline: 1 });
    assert!(!predict_worker_stale(&p, &topo, &[], None, 64, 64, TextureFormat::Rgba8Unorm));
    assert!(predict_worker_stale(&p, &topo, &[], None, 32, 64, TextureFormat::Rgba8Unorm));
    assert!(!worker_stale_reasons(&p, &topo, &[], Some(3), None));
}

#[test]
fn changed_resources_are_named() {
    let handles =
        WorkerResourceHandles { scene: 1, bump: 2, gradient: 3, image_atlas: 4, mask_atlas: 5, out_image: Some(6) };
    assert_eq!(changed_worker_resource(&handles, &handles), None);
    let moved = WorkerResourceHandles { bump: 20, gradient: 30, ..handles };
    assert!(changed_worker_resource(&handles, &moved).is_some());
    let gone = WorkerResourceHandles { out_image: None, ..handles };
    assert!(changed_worker_resource(&handles, &gone).is_some());
}

#[test]
fn scene_buckets_are_powers_of_two() {
    assert_eq!(scene_size_bucket(257), 512);
    assert_eq!(scene_size_bucket(512), 512);
    assert_eq!(scene_size_bucket(513), 1024);
    assert!(scene_size_bucket(0) >= 1);
    assert_eq!(scene_size_bucket(0), scene_size_bucket(1));
}

#[test]
fn growth_is_counted() {
    let mut stats = SceneGrowthStats::default();
    note_scene_growth_frame(&mut stats, 300, 512);
    note_scene_growth_frame(&mut stats, 200, 256);
    note_scene_bucket_crossing(&mut stats);
    note_worker_rerecord_scene_bucket(&mut stats);
    note_upload_rerecord_scene_bucket(&mut stats);
    assert_eq!(stats.frames, 2);
    assert_eq!(stats.current_scene_bucket, 256);
    assert_eq!(stats.peak_scene_bucket, 512);
    assert_eq!(stats.peak_live_scene_bytes, 300);
    assert_eq!(stats.scene_bucket_crossings, 1);
    assert_eq!(stats.worker_rerecord_scene_bucket, 1);
    assert_eq!(stats.upload_rerecord_scene_bucket, 1);
}
