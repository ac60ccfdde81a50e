use ekrano::config::BumpAllocators;
use ekrano::filter::FilterUniform;
use ekrano::goldy_renderer::{
    bump_from_bytes, env_robust_override, sanitize_bump, scheme_render_targets_compatible, BumpDrain, HostBufferStep,
    PersistentState, SchemeTargets, Submission, TargetStep, TargetTexture,
};
use ekrano::resource_proxy::TextureFormat;
use ekrano::scheme_render::CachedUniform;

fn texture(handle: u64, width: u32, height: u32) -> TargetTexture {
    TargetTexture { handle, width, height, format: TextureFormat::Rgba8Unorm }
}

fn test_layers(w: u32, h: u32) -> [TargetTexture; 4] {
    [texture(1, w, h), texture(2, w, h), texture(3, w, h), texture(4, w, h)]
}

#[test]
fn scheme_rt_cache_reuses_none_out_image_in_direct_present_mode() {
    let mut p = PersistentState::new(false);
    let layers = test_layers(8, 8);
    p.store_scheme_render_targets(SchemeTargets { out: None, layers, timeline: 1 });
    let hit = p.take_scheme_render_targets(8, 8, TextureFormat::Rgba8Unorm, true, 0);
    match hit {
        TargetStep::Reuse(targets) => {
            assert!(targets.out.is_none(), "direct-present cache must not retain out_image");
        }
        TargetStep::Acquire { .. } => panic!("the cached targets fit"),
    }
}

#[test]
fn scheme_render_targets_compatible_matches_take_and_purge() {
    let layers = test_layers(16, 16);
    let out = texture(5, 16, 16);
    assert!(scheme_render_targets_compatible(&Some(out), &layers, 16, 16, TextureFormat::Rgba8Unorm, false));
    assert!(!scheme_render_targets_compatible(&Some(out), &layers, 32, 16, TextureFormat::Rgba8Unorm, false));
    // Direct-present expects no out_image.
    assert!(!scheme_render_targets_compatible(&Some(out), &layers, 16, 16, TextureFormat::Rgba8Unorm, true));
    assert!(scheme_render_targets_compatible(&None, &layers, 16, 16, TextureFormat::Rgba8Unorm, true));
    // The copy path expects out_image.
    assert!(!scheme_render_targets_compatible(&None, &layers, 16, 16, TextureFormat::Rgba8Unorm, false));
}

#[test]
fn purge_uses_shared_compatibility_for_present_mode_mismatch() {
    let mut p = PersistentState::new(false);
    let layers = test_layers(8, 8);
    // Cached as direct-present (no out_image).
    p.store_scheme_render_targets(SchemeTargets { out: None, layers, timeline: 1 });
    // Copy-path request must purge (mode mismatch via shared predicate).
    let purge = p.purge_render_target_cache_if_mismatch(8, 8, TextureFormat::Rgba8Unorm, false, 0, false);
    assert!(purge.is_some());
    assert!(p.cached_scheme_rt.is_none());
}

#[test]
fn purge_noop_when_compatible() {
    let mut p = PersistentState::new(false);
    let layers = test_layers(8, 8);
    p.store_scheme_render_targets(SchemeTargets { out: None, layers, timeline: 1 });
    let purge = p.purge_render_target_cache_if_mismatch(8, 8, TextureFormat::Rgba8Unorm, true, 0, false);
    assert!(purge.is_none());
    assert!(p.cached_scheme_rt.is_some());
}

#[test]
fn trim_filter_uniform_cache_releases_tail() {
    let mut p = PersistentState::new(false);
    let dummy = FilterUniform::clear_transparent(1, 1);
    p.cached_filter_uniforms.slots = vec![
        Some(CachedUniform { uniform: dummy, buffer: 100 }),
        Some(CachedUniform { uniform: dummy, buffer: 101 }),
        Some(CachedUniform { uniform: dummy, buffer: 102 }),
    ];
    let released = p.trim_filter_uniform_cache(1);
    assert_eq!(p.cached_filter_uniforms.slots.len(), 1);
    assert_eq!(released, vec![101, 102], "trim must release retained filter-uniform deeds");
}

#[test]
fn targets_of_another_size_are_retired() {
    let mut p = PersistentState::new(false);
    let out = texture(9, 8, 8);
    p.store_scheme_render_targets(SchemeTargets { out: Some(out), layers: test_layers(8, 8), timeline: 7 });
    match p.take_scheme_render_targets(16, 8, TextureFormat::Rgba8Unorm, false, 3) {
        TargetStep::Acquire { retired: Some((targets, reclaim)) } => {
            assert_eq!(targets.out, Some(out));
            assert_eq!(reclaim.wait, p.reclaim_scheme_render_targets(7, 3).wait);
        }
        other => panic!("{other:?}"),
    }
    assert!(p.cached_scheme_rt.is_none());
    assert!(matches!(
        p.take_scheme_render_targets(16, 8, TextureFormat::Rgba8Unorm, false, 3),
        TargetStep::Acquire { retired: None }
    ));
}

#[test]
fn targets_of_another_format_do_not_fit() {
    let out = texture(9, 8, 8);
    assert!(!scheme_render_targets_compatible(
        &Some(out),
        &test_layers(8, 8),
        8,
        8,
        TextureFormat::Bgra8Unorm,
        false
    ));
}

#[test]
fn absurd_counters_are_dropped() {
    let wild = BumpAllocators {
        failed: 3,
        binning: u32::MAX,
        ptcl: 5,
        tile: u32::MAX,
        seg_counts: 7,
        segments: u32::MAX,
        blend: 0,
        lines: u32::MAX,
        active_tiles: u32::MAX,
    };
    let sane = sanitize_bump(&wild);
    assert_eq!(sane.ptcl, 5);
    assert_eq!(sane.seg_counts, 7);
    assert_eq!(sane.binning, 0);
    assert_eq!(sane.lines, 0);
    assert_eq!(sane.failed, 3);
    let most = BumpAllocators { lines: 16 * 1024 * 1024, tile: 16 * 1024 * 1024 + 1, ..wild };
    assert_eq!(sanitize_bump(&most).lines, 16 * 1024 * 1024);
    assert_eq!(sanitize_bump(&most).tile, 0);
}

#[test]
fn robust_setting_can_be_overridden() {
    assert_eq!(env_robust_override(None), None);
    assert_eq!(env_robust_override(Some("0")), Some(false));
    assert_eq!(env_robust_override(Some("FALSE")), Some(false));
    assert_eq!(env_robust_override(Some("No")), Some(false));
    assert_eq!(env_robust_override(Some("off")), Some(false));
    assert_eq!(env_robust_override(Some("1")), Some(true));
    assert_eq!(env_robust_override(Some("")), Some(true));
}

#[test]
fn counters_are_read_from_bytes() {
    let words: [u32; 9] = [1, 2, 3, 4, 5, 6, 7, 8, 9];
    let bytes: Vec<u8> = words.iter().flat_map(|w| w.to_ne_bytes()).collect();
    let bump = bump_from_bytes(&bytes);
    assert_eq!(bump.failed, 1);
    assert_eq!(bump.binning, 2);
    assert_eq!(bump.ptcl, 3);
    assert_eq!(bump.tile, 4);
    assert_eq!(bump.seg_counts, 5);
    assert_eq!(bump.segments, 6);
    assert_eq!(bump.blend, 7);
    assert_eq!(bump.lines, 8);
    assert_eq!(bump.active_tiles, 9);
    let mut p = PersistentState::new(false);
    p.read_bump_bytes(&bytes);
    assert_eq!(p.last_drained_bump(), Some(bump));
    assert_eq!(p.take_last_drained_bump(), Some(bump));
    assert_eq!(p.last_drained_bump(), None);
}

#[test]
fn counters_are_drained_once_the_gpu_is_there() {
    let mut p = PersistentState::new(false);
    let submission = Submission { handle: 4, timeline: 10 };
    p.queue_bump_submission(submission);
    assert_eq!(p.drain_ready_bump_readbacks(20), BumpDrain::Wait, "there is no grant to read");
    p.cached_bump_grant = Some(6);
    assert_eq!(p.drain_ready_bump_readbacks(9), BumpDrain::Wait);
    assert_eq!(p.drain_ready_bump_readbacks(10), BumpDrain::Read { grant: 6, submission });
    assert_eq!(p.drain_ready_bump_readbacks(10), BumpDrain::Wait);
}

#[test]
fn host_buffers_are_kept_for_their_size() {
    let mut p = PersistentState::new(false);
    assert_eq!(p.acquire_readback_host_buf(100), HostBufferStep::Acquire { released: None });
    p.store_readback_host_buf(1, 100);
    assert_eq!(p.acquire_readback_host_buf(100), HostBufferStep::Reuse(1));
    p.store_readback_host_buf(1, 100);
    match p.acquire_readback_host_buf(200) {
        HostBufferStep::Acquire { released } => assert_eq!(released, Some(1)),
        HostBufferStep::Reuse(_) => panic!("the buffer is too small"),
    }
}
