use ekrano::color::Color;
use ekrano::config::{RenderConfig, WorkgroupCounts, WorkgroupCountsGpu};
use ekrano::coverage_mask::CoverageMask;
use ekrano::filter::FilterUniform;
use ekrano::goldy_renderer::{AtlasTexture, PersistentState, SizedBuffer, TargetTexture, TextureUpload};
use ekrano::gpu_resources::{
    alloc_pipeline_buffer, image_fmt_goldy, take_config_buffer, ConfigStep, GraphInputs, GraphPlan, RenderTargets,
};
use ekrano::image::{ImageAlphaType, ImageData};
use ekrano::layout::Layout;
use ekrano::pixels::{expand_mask, pack_rgba_to_pitch, premultiply_rgba8};
use ekrano::pipeline_resources::MadeResources;
use ekrano::recording::{transient_texture, PipelineBuffer, SamplerSlot, TextureSlot};
use ekrano::resource_proxy::{ImageFormat, TextureFlags, TextureFormat, TextureKind, TextureRequest};
use ekrano::scheme_gpu_resources::{
    acquire_or_reuse_retained_atlas, alloc_or_reuse_bump, alloc_or_reuse_config_deposit,
    alloc_or_reuse_full_texture_deposit, alloc_or_reuse_region_texture_deposit, alloc_or_reuse_scene,
    alloc_or_reuse_scene_deposit, alloc_or_reuse_scheme_indirect, atlas_pixels, clear_gpu_buf, config_bytes,
    filter_bytes, stage_texture_bytes, store_config_upload, store_region_upload, store_sampler, store_scene_upload,
    take_pipeline_buffers, take_region_texture_deposit, AtlasStep, BufferStep, BumpStep, CachedPipeline, FrameInputs,
    IndirectStep, NewTargets, PipelineResources, SceneStep, ScratchPipelineBuffers, StablePipelineBuffers, UploadStep,
    WholeAtlas,
};
use ekrano::{AaConfig, Error, RenderParams};
use std::sync::Arc;

fn params() -> RenderParams {
    RenderParams {
        base_color: Color { components: [0; 4] },
        width: 2,
        height: 1,
        antialiasing_method: AaConfig::Area,
        robust: false,
    }
}

fn config() -> RenderConfig {
    RenderConfig::new(&Layout::default(), 2, 1, &Color { components: [0; 4] })
}

fn image(id: u64, alpha_type: ImageAlphaType) -> ImageData {
    ImageData { id, format: ImageFormat::Rgba8, alpha_type, width: 1, height: 1 }
}

fn sampled(width: u32, height: u32, copy_src: bool) -> TextureRequest {
    TextureRequest {
        width,
        height,
        format: TextureFormat::Rgba8Unorm,
        kind: TextureKind::Interpolated,
        flags: TextureFlags { copy_dst: true, copy_src },
    }
}

fn stable() -> StablePipelineBuffers {
    StablePipelineBuffers { info_bin_data: 1, tile: 2, segments: 3, ptcl: 4, blend_spill: 5, lines: 6, seg_counts: 7 }
}

fn scratch() -> ScratchPipelineBuffers {
    ScratchPipelineBuffers {
        reduced: 11,
        reduced2: 12,
        reduced_scan: 13,
        tagmonoid: 14,
        path_bbox: 15,
        draw_reduced: 16,
        draw_monoid: 17,
        clip_inp: 18,
        clip_el: 19,
        clip_bic: 20,
        clip_bbox: 21,
        draw_bbox: 22,
        bin_header: 23,
        path: 24,
    }
}

fn inputs<'a>(images: &'a [(ImageData, u32, u32)], pixels: &'a [Vec<u8>], ramps: &'a [u32]) -> GraphInputs<'a> {
    GraphInputs {
        coverage_mask: None,
        ramps_data: ramps,
        ramps_width: 2,
        ramps_height: ramps.len() as u32 / 2,
        images_width: 8,
        images_height: 4,
        images,
        pixels,
        out_image_format: TextureFormat::Bgra8Unorm,
        cached_pipeline: None,
        cached_targets: None,
    }
}

#[test]
fn colors_are_premultiplied() {
    assert_eq!(premultiply_rgba8(&[255, 100, 0, 128, 9, 8, 7, 255, 1, 2, 3, 0, 4, 5]), vec![
        128, 50, 0, 128, 9, 8, 7, 255, 0, 0, 0, 0, 4, 5
    ]);
}

#[test]
fn rows_are_pitched() {
    let src: Vec<u8> = (1..=16).collect();
    assert_eq!(
        pack_rgba_to_pitch(&src, 2, 2, 12),
        vec![1, 2, 3, 4, 5, 6, 7, 8, 0, 0, 0, 0, 9, 10, 11, 12, 13, 14, 15, 16, 0, 0, 0, 0]
    );
    assert_eq!(
        pack_rgba_to_pitch(&src[..12], 2, 2, 12),
        vec![1, 2, 3, 4, 5, 6, 7, 8, 0, 0, 0, 0, 0, 0, 0, 0, 0, 0, 0, 0, 0, 0, 0, 0],
        "a row that is not there whole is left out"
    );
    let staged = stage_texture_bytes(&src, 2, 2, 12, 8, 0);
    assert_eq!((staged.bytes.len(), staged.staging_bytes), (24, 24));
    let staged = stage_texture_bytes(&src, 2, 2, 8, 8, 100);
    assert_eq!((staged.bytes, staged.staging_bytes), (src, 100));
}

#[test]
fn masks_become_gray() {
    assert_eq!(expand_mask(&[0, 7]), vec![0, 0, 0, 255, 7, 7, 7, 255]);
}

#[test]
fn images_are_premultiplied_unless_they_are() {
    let data = [200, 100, 50, 128];
    assert_eq!(atlas_pixels(&image(1, ImageAlphaType::Alpha), &data).unwrap(), premultiply_rgba8(&data));
    assert_eq!(atlas_pixels(&image(1, ImageAlphaType::AlphaPremultiplied), &data).unwrap(), data.to_vec());
    let empty = ImageData { width: 0, ..image(1, ImageAlphaType::Alpha) };
    assert!(atlas_pixels(&empty, &[]).unwrap().is_empty());
    match atlas_pixels(&image(77, ImageAlphaType::Alpha), &[]) {
        Err(Error::InvalidImage { id, reason }) => {
            assert_eq!(id, 77);
            assert!(reason.starts_with("image has non-zero dimensions but no pixel data"));
        }
        _ => panic!("the image has no pixels"),
    }
}

#[test]
fn atlases_are_kept_while_their_size_is_the_same() {
    let mut cached = Some(AtlasTexture { width: 4, height: 4, handle: 9 });
    assert_eq!(
        acquire_or_reuse_retained_atlas(&mut cached, 4, 4, true),
        AtlasStep { texture: sampled(4, 4, true), reused: Some(9), released: None }
    );
    assert_eq!(
        acquire_or_reuse_retained_atlas(&mut cached, 8, 4, false),
        AtlasStep { texture: sampled(8, 4, false), reused: None, released: Some(9) }
    );
    assert!(cached.is_none());
}

#[test]
fn scene_buffers_grow_by_buckets() {
    let mut state = PersistentState::new(false);
    assert_eq!(alloc_or_reuse_scene(&mut state, 5000), SceneStep::Acquire { bucket: 8192, retired: None });
    let buffer = SizedBuffer { size: 8192, handle: 3 };
    state.cached_scene = Some(buffer);
    assert_eq!(alloc_or_reuse_scene(&mut state, 8192), SceneStep::Reuse(buffer));
    state.cached_scene = Some(buffer);
    assert_eq!(alloc_or_reuse_scene(&mut state, 8193), SceneStep::Acquire { bucket: 16384, retired: Some(3) });
    assert_eq!(state.scene_growth.scene_bucket_crossings, 1);
}

#[test]
fn bump_buffers_keep_their_size() {
    let mut state = PersistentState::new(false);
    state.cached_bump_grant = Some(8);
    let buffer = SizedBuffer { size: 36, handle: 3 };
    state.cached_bump = Some(buffer);
    assert_eq!(alloc_or_reuse_bump(&mut state, 36), BumpStep::Reuse(buffer));
    assert_eq!(state.cached_bump_grant, Some(8));
    state.cached_bump = Some(buffer);
    assert_eq!(alloc_or_reuse_bump(&mut state, 40), BumpStep::Acquire { size: 40, retired: Some(3) });
    assert_eq!(state.cached_bump_grant, None);
}

#[test]
fn indirect_buffers_keep_their_counts() {
    let counts = WorkgroupCountsGpu::from(&WorkgroupCounts::new(&Layout::default(), 2, 3, 4));
    let mut state = PersistentState::new(false);
    match alloc_or_reuse_scheme_indirect(&mut state, &counts) {
        IndirectStep::Acquire { released, shapes } => {
            assert_eq!((released, shapes.len()), (None, 20));
            assert_eq!(shapes[19], Some((2, 3, 1)));
            assert_eq!((shapes[14], shapes[18]), (None, None), "the GPU writes these");
        }
        IndirectStep::Reuse(_) => panic!("there is none"),
    }
    state.cached_scheme_indirect = Some((counts, 6));
    assert!(matches!(alloc_or_reuse_scheme_indirect(&mut state, &counts), IndirectStep::Reuse(6)));
    let mut other = counts;
    other.entries[19][0] = 9;
    state.cached_scheme_indirect = Some((counts, 6));
    assert!(matches!(
        alloc_or_reuse_scheme_indirect(&mut state, &other),
        IndirectStep::Acquire { released: Some(6), .. }
    ));
}

#[test]
fn uploads_are_declared_once() {
    let mut state = PersistentState::new(false);
    state.cached_scene_upload = Some(SizedBuffer { size: 8192, handle: 4 });
    state.cached_config_upload = Some(5);
    assert_eq!(alloc_or_reuse_scene_deposit(&state, false, 5000), UploadStep::Reuse(4));
    assert_eq!(alloc_or_reuse_scene_deposit(&state, true, 5000), UploadStep::Declare(8192));
    assert_eq!(alloc_or_reuse_config_deposit(&state, false), UploadStep::Reuse(5));
    assert_eq!(alloc_or_reuse_config_deposit(&state, true), UploadStep::Declare(100));
    let upload = Some(TextureUpload { width: 2, height: 2, capacity: 64, handle: 6 });
    assert_eq!(alloc_or_reuse_full_texture_deposit(&upload, false, 2, 2, 64), UploadStep::Reuse(6));
    assert_eq!(alloc_or_reuse_full_texture_deposit(&upload, false, 2, 2, 65), UploadStep::Declare(65));
    assert_eq!(alloc_or_reuse_full_texture_deposit(&upload, true, 2, 2, 64), UploadStep::Declare(64));
    let regions = vec![((1, 2, 3, 4), 7)];
    assert_eq!(take_region_texture_deposit(&regions, false, (1, 2, 3, 4)), Some(7));
    assert_eq!(take_region_texture_deposit(&regions, true, (1, 2, 3, 4)), None);
    assert_eq!(alloc_or_reuse_region_texture_deposit(&regions, false, (1, 2, 3, 5), 60), UploadStep::Declare(60));
}

#[test]
fn clears_reach_the_end() {
    assert_eq!(clear_gpu_buf(true, 36, 4, None), Some((4, 32)));
    assert_eq!(clear_gpu_buf(true, 36, 40, None), Some((40, 0)));
    assert_eq!(clear_gpu_buf(true, 36, 4, Some(8)), Some((4, 8)));
    assert_eq!(clear_gpu_buf(false, 36, 4, None), None);
}

#[test]
fn uniforms_are_laid_out_in_order() {
    let mut value = config().gpu;
    value.mask_active = 0x0102_0304;
    let bytes = config_bytes(&value);
    assert_eq!(bytes.len(), 100);
    assert_eq!(bytes[0..4], value.width_in_tiles.to_ne_bytes());
    assert_eq!(bytes[8..12], 2_u32.to_ne_bytes());
    assert_eq!(bytes[96..100], 0x0102_0304_u32.to_ne_bytes());
}

#[test]
fn pipeline_buffers_are_kept_while_they_fit() {
    let sizes = config().buffer_sizes;
    let mut state = PersistentState::new(false);
    state.cached_pipeline = Some(CachedPipeline { stable: stable(), scratch: scratch(), buffer_sizes: sizes });
    let step = take_pipeline_buffers(&mut state, &sizes);
    assert!(step.released.is_none());
    assert!(matches!(step.stable, BufferStep::Reuse(b) if b == stable()));
    assert!(matches!(step.scratch, BufferStep::Reuse(b) if b == scratch()));
    assert!(state.cached_pipeline.is_none());
    let other = RenderConfig::new(&Layout { n_paths: 1000, ..Layout::default() }, 2, 1, &Color { components: [0; 4] });
    state.cached_pipeline = Some(CachedPipeline { stable: stable(), scratch: scratch(), buffer_sizes: sizes });
    let step = take_pipeline_buffers(&mut state, &other.buffer_sizes);
    assert_eq!(step.released, Some((stable(), scratch())));
    match step.stable {
        BufferStep::Acquire(requests) => {
            assert_eq!((requests[1].label, requests[1].size, requests[1].stride), ("ekrano.tile_buf", 1 << 24, 8));
            let labels: Vec<&str> = requests.iter().map(|r| r.label).collect();
            let back: Vec<&str> = stable().return_to_pool().iter().map(|r| r.1).collect();
            assert_eq!(labels, back);
        }
        BufferStep::Reuse(_) => panic!("the sizes have changed"),
    }
    match step.scratch {
        BufferStep::Acquire(requests) => {
            let labels: Vec<&str> = requests.iter().map(|r| r.label).collect();
            let back: Vec<&str> = scratch().defer_to().iter().map(|r| r.1).collect();
            assert_eq!(labels, back);
            let handles: Vec<u64> = scratch().defer_to().iter().map(|r| r.0).collect();
            assert_eq!(handles, scratch().handles());
        }
        BufferStep::Reuse(_) => panic!("the sizes have changed"),
    }
}

#[test]
fn some_buffers_start_at_zero() {
    assert_eq!(alloc_pipeline_buffer(36, 36, "ekrano.bump_buf", true).clear, Some((0, 36)));
    assert_eq!(alloc_pipeline_buffer(64, 16, "ekrano.indirect_dispatch", false).clear, Some((0, 64)));
    assert_eq!(alloc_pipeline_buffer(64, 16, "ekrano.tile_buf", false).clear, None);
    assert_eq!(image_fmt_goldy(ImageFormat::Bgra8), TextureFormat::Bgra8Unorm);
}

#[test]
fn unchanged_uniforms_are_not_written() {
    let value = config().gpu;
    let mut cached = Some((value, 4));
    assert!(matches!(take_config_buffer(&mut cached, &value), ConfigStep::Keep(4)));
    assert!(cached.is_none());
    assert!(matches!(take_config_buffer(&mut cached, &value), ConfigStep::Upload(u) if u.bytes.len() == 100 && u.stride == 100 && u.label == "ekrano.config"));
    let mut other = value;
    other.tile_y_offset = 1;
    cached = Some((other, 4));
    assert!(matches!(take_config_buffer(&mut cached, &value), ConfigStep::Overwrite(4, b) if b == config_bytes(&value)));
}

#[test]
fn graphs_are_prepared() {
    let images = [(image(1, ImageAlphaType::AlphaPremultiplied), 3, 2)];
    let pixels = [vec![1, 2, 3, 4]];
    let ramps = [0x0403_0201, 0x0807_0605];
    let mask = CoverageMask::new(2, 1, Arc::new(vec![9, 8])).unwrap();
    let mut input = inputs(&images, &pixels, &ramps);
    input.coverage_mask = Some(&mask);
    input.cached_pipeline =
        Some(CachedPipeline { stable: stable(), scratch: scratch(), buffer_sizes: Default::default() });
    let mut cached = None;
    let plan = GraphPlan::prepare(&mut cached, &input, vec![6; 12], &params(), &config()).unwrap();
    let ramp_bytes: Vec<u8> = ramps.iter().flat_map(|w| w.to_ne_bytes()).collect();
    assert_eq!((plan.gradient.texture, plan.gradient.bytes), (sampled(2, 1, false), Some(ramp_bytes)));
    assert_eq!(plan.image_atlas.texture, sampled(8, 4, true));
    assert_eq!((plan.image_writes[0].region, plan.image_writes[0].bytes.clone()), ((3, 2, 1, 1), vec![1, 2, 3, 4]));
    assert_eq!(plan.mask_atlas.texture, sampled(2, 1, false));
    assert_eq!(plan.mask_atlas.bytes, Some(vec![9, 9, 9, 255, 8, 8, 8, 255]));
    assert_eq!((plan.scene.label, plan.scene.stride, plan.scene.bytes), ("ekrano.scene", 4, vec![6; 12]));
    assert_eq!(plan.config_value.mask_active, 1);
    assert_eq!(plan.returned.len(), 21);
    assert_eq!(plan.bump.clear, Some((0, 36)));
    let flags = TextureFlags { copy_dst: true, copy_src: true };
    let (direct, both) = (TextureKind::Direct, TextureKind::DirectInterpolated);
    let (bgra, rgba) = (TextureFormat::Bgra8Unorm, TextureFormat::Rgba8Unorm);
    let wanted = NewTargets {
        out: Some(TextureRequest { width: 2, height: 1, format: bgra, kind: direct, flags }),
        layer: TextureRequest { width: 2, height: 1, format: rgba, kind: both, flags },
    };
    assert_eq!(plan.targets, RenderTargets::Acquire(wanted));
}

#[test]
fn empty_frames_have_stand_ins() {
    let mut input = inputs(&[], &[], &[]);
    input.cached_targets = Some((5, [6, 7, 8, 9]));
    let mut cached = None;
    let plan = GraphPlan::prepare(&mut cached, &input, vec![], &params(), &config()).unwrap();
    assert_eq!(plan.gradient.texture, sampled(1, 1, false));
    assert_eq!(plan.image_atlas.texture, sampled(1, 1, true));
    assert!(plan.gradient.bytes.is_none() && plan.returned.is_empty());
    assert_eq!(plan.mask_atlas.bytes, Some(vec![255; 4]));
    assert_eq!(plan.scene.bytes, vec![255; 4]);
    assert_eq!(plan.config_value.mask_active, 0);
    assert_eq!(plan.targets, RenderTargets::Reuse(5, [6, 7, 8, 9]));
}

#[test]
fn images_without_pixels_fail_after_the_atlases() {
    let images = [(image(1, ImageAlphaType::AlphaPremultiplied), 4, 6), (image(2, ImageAlphaType::Alpha), 0, 0)];
    let pixels = [vec![1, 2, 3, 4], vec![]];
    let mut persistent = PersistentState::new(false);
    persistent.cached_gradient = Some(AtlasTexture { width: 9, height: 9, handle: 31 });
    persistent.cached_image_atlas = Some(AtlasTexture { width: 40, height: 30, handle: 32 });
    persistent.cached_mask_atlas = Some(AtlasTexture { width: 7, height: 7, handle: 33 });
    let frame = FrameInputs {
        coverage_mask: None,
        ramps_data: &[5, 6],
        ramps_width: 2,
        ramps_height: 1,
        images_width: 40,
        images_height: 30,
        images: &images,
        pixels: &pixels,
        out_image_format: TextureFormat::Rgba8Unorm,
        direct_present: false,
        upload_needs_record: true,
        gpu_progress: 0,
    };
    let Err(failure) = PipelineResources::prepare(&mut persistent, &frame, vec![], &params(), &config()) else {
        panic!("the second image has no pixels");
    };
    assert!(matches!(failure.error, Error::InvalidImage { id: 2, .. }));
    let gradient = failure.gradient;
    assert_eq!((gradient.texture, gradient.reused, gradient.released), (sampled(2, 1, false), None, Some(31)));
    assert_eq!(failure.image_atlas.texture, sampled(40, 30, true));
    assert_eq!(failure.gradient_bytes.map(|bytes| bytes.len()), Some(8));
    assert_eq!((failure.image_atlas.reused, failure.image_atlas.released), (Some(32), None));
    assert_eq!(failure.image_writes.len(), 1, "the first image is written");
    assert_eq!((failure.image_writes[0].region.0, &failure.image_writes[0].bytes), (4, &vec![1, 2, 3, 4]));
    assert_eq!(persistent.cached_mask_atlas.map(|t| t.handle), Some(33), "the mask is not reached");
}

#[test]
fn images_without_pixels_fail_a_graph() {
    let images = [(image(1, ImageAlphaType::Alpha), 0, 0), (image(2, ImageAlphaType::Alpha), 0, 0)];
    let pixels = [vec![1, 2, 3, 4], vec![]];
    let mut cached = Some((config().gpu, 4));
    match GraphPlan::prepare(&mut cached, &inputs(&images, &pixels, &[]), vec![], &params(), &config()) {
        Err(Error::InvalidImage { id, .. }) => assert_eq!(id, 2),
        _ => panic!("the second image has no pixels"),
    }
    assert!(cached.is_some(), "the uniform buffer is still there");
}

#[test]
fn handles_go_to_the_buffers_that_were_asked_for() {
    assert_eq!(StablePipelineBuffers::from_handles(&stable().handles()), stable());
    assert_eq!(ScratchPipelineBuffers::from_handles(&scratch().handles()), scratch());
    let swapped = StablePipelineBuffers::from_handles(&[7, 6, 5, 4, 3, 2, 1]);
    assert_eq!((swapped.info_bin_data, swapped.lines, swapped.seg_counts), (7, 2, 1));
}

fn target(handle: u64) -> TargetTexture {
    TargetTexture { handle, width: 2, height: 1, format: TextureFormat::Rgba8Unorm }
}

#[test]
fn resources_follow_from_the_plan() {
    let mut persistent = PersistentState::new(false);
    persistent.cached_gradient = Some(AtlasTexture { width: 1, height: 1, handle: 31 });
    let frame = FrameInputs {
        coverage_mask: None,
        ramps_data: &[],
        ramps_width: 0,
        ramps_height: 0,
        images_width: 0,
        images_height: 0,
        images: &[],
        pixels: &[],
        out_image_format: TextureFormat::Rgba8Unorm,
        direct_present: false,
        upload_needs_record: true,
        gpu_progress: 0,
    };
    let Ok(plan) = PipelineResources::prepare(&mut persistent, &frame, vec![], &params(), &config()) else {
        panic!("there is no image to lack pixels");
    };
    let layers = [target(51), target(52), target(53), target(54)];
    let made = MadeResources {
        gradient: 40,
        image_atlas: 41,
        mask_atlas: 42,
        scene: 43,
        config: 44,
        stable: stable().handles(),
        scratch: scratch().handles(),
        bump: 45,
        out_image: Some(target(50)),
        filter_layers: layers,
    };
    let p = PipelineResources::assemble(&plan, &made, &params(), &config());
    assert_eq!((p.gradient, p.image_atlas, p.mask_atlas, p.config), (31, 41, 42, 44));
    assert_eq!((p.scene.handle, p.bump.handle, p.bump.size), (43, 45, 36));
    assert_eq!((p.stable, p.scratch), (stable(), scratch()));
    assert!(p.indirect.is_none());
    assert_eq!(p.buffer_handle(PipelineBuffer::Indirect, 90, None), Some(90));
    assert_eq!(p.buffer_handle(PipelineBuffer::WgCounts, 90, None), Some(90));
    assert_eq!(p.buffer_handle(PipelineBuffer::Scene, 90, None), Some(43));
    assert_eq!(p.buffer_handle(PipelineBuffer::Tile, 90, None), Some(2));
    assert_eq!(p.buffer_handle(PipelineBuffer::ClipEl, 90, None), Some(19));
    assert_eq!(p.buffer_handle(PipelineBuffer::MaskLut, 90, None), None);
    assert_eq!(p.buffer_handle(PipelineBuffer::MaskLut, 90, Some(91)), Some(91));
    assert_eq!(p.texture_handle(TextureSlot::OutImage), Some(50));
    assert_eq!(p.texture_handle(TextureSlot::FilterLayer(2)), Some(53));
    assert_eq!(p.texture_handle(TextureSlot::FilterLayer(4)), None);
    assert_eq!(p.texture_handle(TextureSlot::MaskAtlas), Some(42));
    assert_eq!(p.texture_handle(TextureSlot::Scratch), None);
    let worker = p.worker_handles();
    assert_eq!((worker.scene, worker.bump, worker.gradient, worker.out_image), (43, 45, 31, Some(50)));
}

#[test]
fn declared_uploads_are_found_again() {
    let mut state = PersistentState::new(false);
    store_scene_upload(&mut state, 4096, 1);
    assert_eq!(alloc_or_reuse_scene_deposit(&state, false, 100), UploadStep::Reuse(1));
    store_config_upload(&mut state, 2);
    assert_eq!(alloc_or_reuse_config_deposit(&state, false), UploadStep::Reuse(2));
    let upload = TextureUpload { width: 4, height: 4, capacity: 64, handle: 3 };
    WholeAtlas::Mask.store_upload(&mut state, upload);
    assert_eq!(WholeAtlas::Mask.upload(&state), Some(upload));
    assert_eq!(WholeAtlas::Gradient.upload(&state), None);
    store_region_upload(&mut state, (1, 2, 3, 4), 5);
    let uploads = &state.cached_image_region_uploads;
    assert_eq!(alloc_or_reuse_region_texture_deposit(uploads, false, (1, 2, 3, 4), 8), UploadStep::Reuse(5));
    assert_eq!(alloc_or_reuse_region_texture_deposit(uploads, false, (1, 2, 3, 5), 8), UploadStep::Declare(8));
}

#[test]
fn filter_uniforms_are_laid_out_in_order() {
    let uniform = FilterUniform {
        width: 1,
        height: 2,
        edge_mode: 3,
        pass_kind: 4,
        std_dev: 5,
        dx: 6,
        dy: 7,
        color: 8,
        pad: 9,
    };
    let words: Vec<u8> = (1_u32..10).flat_map(|w| w.to_ne_bytes()).collect();
    assert_eq!(filter_bytes(&uniform), words);
}

#[test]
fn samplers_are_kept_apart() {
    let mut state = PersistentState::new(false);
    store_sampler(&mut state, SamplerSlot::NearestClamp, 4);
    assert_eq!((state.linear_clamp_sampler, state.nearest_clamp_sampler), (None, Some(4)));
    store_sampler(&mut state, SamplerSlot::LinearClamp, 5);
    assert_eq!((state.linear_clamp_sampler, state.nearest_clamp_sampler), (Some(5), Some(4)));
}

#[test]
fn transient_textures_are_written_and_sampled() {
    let texture = transient_texture(3, 2, true);
    assert_eq!((texture.width, texture.height), (3, 2));
    assert_eq!(texture.kind, TextureKind::DirectInterpolated);
    assert_eq!(texture.flags, TextureFlags { copy_dst: true, copy_src: true });
    assert_eq!(transient_texture(3, 2, false).flags, TextureFlags { copy_dst: false, copy_src: false });
}
