use ekrano::color::Color;
use ekrano::config::{BumpAllocators, RenderConfig};
use ekrano::filter::{FilterPrimitive, LayerFilterEffect};
use ekrano::goldy_renderer::{
    BumpDrain, PersistentState, PreparedFrame, SchemeTargets, SizedBuffer, Submission, TargetStep, TargetTexture,
};
use ekrano::layout::Layout;
use ekrano::pixels::CopyLayout;
use ekrano::resource_proxy::TextureFormat;
use ekrano::pipeline_resources::MadeResources;
use ekrano::scheme_gpu_resources::{store_atlas, FrameInputs, PipelineResources, PreparePlan};
use ekrano::scheme_renderer::{
    dispatch_accesses, poll_and_reclaim, FrameEnd, ReclaimStep, SchemeRenderer, Signal, WorkerRecord,
};
use ekrano::goldy_renderer::AtlasCache;
use ekrano::recording::{Binding, PipelineBuffer};
use ekrano::resource_proxy::{BindType, NodeAccess};
use ekrano::{AaConfig, Error, RenderParams};

fn black() -> Color {
    Color { components: [0, 0, 0, 1.0_f32.to_bits()] }
}

fn params() -> RenderParams {
    RenderParams { base_color: black(), width: 64, height: 64, antialiasing_method: AaConfig::Area, robust: false }
}

/// Hands out handles in place of a GPU.
struct Stage {
    renderer: SchemeRenderer,
    next_handle: u64,
    timeline: u64,
    /// The texture that frames are rendered to, where it is not the renderer's own.
    output: Option<u64>,
}

impl Stage {
    fn new() -> Self {
        Stage {
            renderer: SchemeRenderer::new(false),
            next_handle: 100,
            timeline: 0,
            output: None,
        }
    }

    fn fresh(&mut self) -> u64 {
        self.next_handle += 1;
        self.next_handle
    }

    fn texture(&mut self, width: u32, height: u32, format: TextureFormat) -> TargetTexture {
        TargetTexture { handle: self.fresh(), width, height, format }
    }

    fn made(&mut self, plan: &PreparePlan) -> MadeResources {
        let out_image = match plan.new_targets.and_then(|wanted| wanted.out) {
            Some(r) => Some(self.texture(r.width, r.height, r.format)),
            None => None,
        };
        let (width, height) = match plan.new_targets {
            Some(wanted) => (wanted.layer.width, wanted.layer.height),
            None => (0, 0),
        };
        let rgba = TextureFormat::Rgba8Unorm;
        let filter_layers = [
            self.texture(width, height, rgba),
            self.texture(width, height, rgba),
            self.texture(width, height, rgba),
            self.texture(width, height, rgba),
        ];
        MadeResources {
            gradient: self.fresh(),
            image_atlas: self.fresh(),
            mask_atlas: self.fresh(),
            scene: self.fresh(),
            config: self.fresh(),
            stable: (0..7).map(|_| self.fresh()).collect(),
            scratch: (0..14).map(|_| self.fresh()).collect(),
            bump: self.fresh(),
            out_image,
            filter_layers,
        }
    }

    fn acquire(&mut self, plan: &PreparePlan, config: &RenderConfig, params: &RenderParams) -> PipelineResources {
        let made = self.made(plan);
        let persistent = &mut self.renderer.persistent;
        store_atlas(persistent, AtlasCache::Gradient, plan.gradient.texture_with(made.gradient));
        store_atlas(persistent, AtlasCache::Image, plan.image_atlas.texture_with(made.image_atlas));
        store_atlas(persistent, AtlasCache::Mask, plan.mask_atlas.texture_with(made.mask_atlas));
        PipelineResources::assemble(plan, &made, params, config)
    }

    fn prepared(&self, bytes: usize, params: &RenderParams, effects: &[LayerFilterEffect]) -> PreparedFrame {
        let layout = Layout { n_draw_objects: 1, n_paths: 1, path_data_base: 4, ..Layout::default() };
        self.renderer.prepare(
            params,
            None,
            vec![0; bytes],
            layout,
            (vec![], 0, 0),
            (vec![], 0, 0),
            None,
            effects.to_vec(),
        )
    }

    /// Renders a frame for readback, which its render target has to be there for.
    fn render_to_buffer(&mut self, bytes: usize, params: &RenderParams) {
        self.render(bytes, params);
        assert!(!self.renderer.retry_readback(0));
        let target = self.renderer.readback_target().unwrap();
        assert_eq!((target.width, target.height), (params.width, params.height));
    }

    /// Renders a frame whose packed scene has that many bytes.
    fn render_with(&mut self, bytes: usize, params: &RenderParams, effects: &[LayerFilterEffect], pool: bool) -> FrameEnd {
        let mut frame = self.prepared(bytes, params, effects);
        let format = TextureFormat::Rgba8Unorm;
        let start = self.renderer.start_frame(&mut frame, format, pool, false);
        let inputs = FrameInputs {
            coverage_mask: None,
            ramps_data: &frame.ramps_data,
            ramps_width: frame.ramps_width,
            ramps_height: frame.ramps_height,
            images_width: frame.images_width,
            images_height: frame.images_height,
            images: &frame.image_entries,
            pixels: &[],
            out_image_format: format,
            direct_present: false,
            upload_needs_record: start.upload_needs_record,
            gpu_progress: self.timeline,
        };
        let plan = PipelineResources::prepare(
            &mut self.renderer.persistent,
            &inputs,
            frame.packed.clone(),
            &frame.params,
            &frame.config,
        )
        .unwrap_or_else(|_| panic!("there is no image to lack pixels"));
        let pipeline = self.acquire(&plan, &frame.config, &frame.params);
        let out_image = pipeline.out_image.map(|t| t.handle);
        let stale = self.renderer.resolve_worker(&start, effects, out_image, self.output);
        let resources = pipeline.worker_handles();
        let record = if stale {
            self.renderer.note_worker_record();
            Some(WorkerRecord {
                present: if pool { Some(71) } else { None },
                bump: if params.robust { Some(72) } else { None },
                resources,
                filter_passes: 0,
            })
        } else {
            assert_eq!(self.renderer.persistent.cached_worker_resources, Some(resources));
            None
        };
        self.renderer.schedule_pipeline_cleanup(pipeline);
        self.timeline += 1;
        let submission = Submission { handle: 1000 + self.timeline, timeline: self.timeline };
        self.renderer.end_frame(
            &start,
            record,
            effects.to_vec(),
            self.output,
            pool,
            params.robust,
            submission,
            self.timeline,
        )
    }

    fn render(&mut self, bytes: usize, params: &RenderParams) -> FrameEnd {
        self.render_with(bytes, params, &[], false)
    }
}

#[test]
fn prepare_out_image_format_matches_requested() {
    let mut persistent = PersistentState::new(false);
    let params = params();
    for &expected_format in &[TextureFormat::Bgra8Unorm, TextureFormat::Rgba8Unorm] {
        let config = RenderConfig::new(&Layout::default(), params.width, params.height, &params.base_color);
        let inputs = FrameInputs {
            coverage_mask: None,
            ramps_data: &[],
            ramps_width: 0,
            ramps_height: 0,
            images_width: 0,
            images_height: 0,
            images: &[],
            pixels: &[],
            out_image_format: expected_format,
            direct_present: false,
            upload_needs_record: true,
            gpu_progress: 0,
        };
        let plan = PipelineResources::prepare(&mut persistent, &inputs, Vec::new(), &params, &config).ok().unwrap();
        let out = plan.new_targets.unwrap().out.unwrap();
        assert_eq!(out.format, expected_format);
        assert_eq!((out.width, out.height), (64, 64));
    }
}

#[test]
fn a_target_of_another_format_is_not_used_again() {
    let mut persistent = PersistentState::new(false);
    let params = params();
    let config = RenderConfig::new(&Layout::default(), params.width, params.height, &params.base_color);
    let layer = TargetTexture { handle: 5, width: 64, height: 64, format: TextureFormat::Rgba8Unorm };
    for (format, fits) in [(TextureFormat::Rgba8Unorm, true), (TextureFormat::Bgra8Unorm, false)] {
        persistent.cached_scheme_rt = Some(SchemeTargets { out: Some(layer), layers: [layer; 4], timeline: 3 });
        let inputs = FrameInputs {
            coverage_mask: None,
            ramps_data: &[],
            ramps_width: 0,
            ramps_height: 0,
            images_width: 0,
            images_height: 0,
            images: &[],
            pixels: &[],
            out_image_format: format,
            direct_present: false,
            upload_needs_record: false,
            gpu_progress: 0,
        };
        let plan = PipelineResources::prepare(&mut persistent, &inputs, Vec::new(), &params, &config).ok().unwrap();
        assert_eq!(plan.new_targets.is_none(), fits);
        assert_eq!(matches!(plan.targets, TargetStep::Reuse(_)), fits);
        assert_eq!(plan.scene_bytes, vec![255; 4]);
        assert_eq!(plan.mask_bytes, vec![255; 4]);
        assert!(plan.gradient_bytes.is_none());
        assert_eq!(plan.config_bytes.len(), 100);
        assert_eq!(plan.config_bytes[8], 64);
    }
}

#[test]
fn worker_and_upload_rerecord_on_scene_bucket_growth() {
    let mut stage = Stage::new();
    let params = params();
    for _ in 0..2 {
        stage.render(500, &params);
    }
    let worker_epochs_after_small = stage.renderer.worker_record_epochs();
    let upload_epochs_after_small = stage.renderer.upload_record_epochs();
    assert_eq!(worker_epochs_after_small, 1);
    assert_eq!(upload_epochs_after_small, 1);

    stage.render(500_000, &params);
    assert!(stage.renderer.upload_record_epochs() > upload_epochs_after_small);
    assert!(stage.renderer.worker_record_epochs() > worker_epochs_after_small);

    let worker_epochs_stable = stage.renderer.worker_record_epochs();
    let upload_epochs_stable = stage.renderer.upload_record_epochs();
    for _ in 0..2 {
        stage.render(500_000, &params);
    }
    assert_eq!(stage.renderer.worker_record_epochs(), worker_epochs_stable);
    assert_eq!(stage.renderer.upload_record_epochs(), upload_epochs_stable);
    let growth = stage.renderer.persistent.scene_growth;
    assert_eq!((growth.frames, growth.scene_bucket_crossings), (5, 1));
    assert_eq!((growth.worker_rerecord_scene_bucket, growth.upload_rerecord_scene_bucket), (1, 1));
    assert_eq!(growth.peak_live_scene_bytes, 500_000);
}

#[test]
fn upload_scheme_stable_when_only_worker_topology_changes() {
    let mut stage = Stage::new();
    let mut params = params();
    for _ in 0..2 {
        stage.render(500, &params);
    }
    let upload_epochs_after_area = stage.renderer.upload_record_epochs();
    let worker_epochs_after_area = stage.renderer.worker_record_epochs();
    assert_eq!(upload_epochs_after_area, 1);
    assert_eq!(worker_epochs_after_area, 1);

    params.antialiasing_method = AaConfig::Msaa16;
    stage.render(500, &params);
    assert_eq!(stage.renderer.upload_record_epochs(), upload_epochs_after_area);
    assert_eq!(stage.renderer.worker_record_epochs(), worker_epochs_after_area + 1);
}

#[test]
fn worker_scheme_retains_topology_across_frames() {
    let mut stage = Stage::new();
    let params = params();
    const FRAMES: u32 = 4;
    for _ in 0..FRAMES {
        stage.render_to_buffer(500, &params);
    }
    assert_eq!(stage.renderer.worker_record_epochs(), 1, "the worker is recorded once and retained from then on");
    assert_eq!(stage.renderer.upload_record_epochs(), 1, "upload scheme must record exactly once for stable topology");
}

#[test]
fn worker_scheme_rerecords_on_topology_change() {
    let mut stage = Stage::new();
    let mut params = params();
    for _ in 0..2 {
        stage.render_to_buffer(500, &params);
    }
    assert_eq!(stage.renderer.worker_record_epochs(), 1);
    params.width = 128;
    params.height = 128;
    for _ in 0..2 {
        stage.render_to_buffer(500, &params);
    }
    assert_eq!(stage.renderer.worker_record_epochs(), 2, "resolution change must trigger exactly one additional worker record");
    assert_eq!(stage.renderer.upload_record_epochs(), 1);
}

#[test]
fn worker_scheme_render_to_texture_records_once() {
    let mut stage = Stage::new();
    stage.output = Some(stage.next_handle + 1);
    stage.next_handle += 1;
    const FRAMES: u32 = 4;
    for _ in 0..FRAMES {
        stage.render(500, &params());
    }
    assert_eq!(stage.renderer.worker_record_epochs(), 1);
    stage.output = None;
    stage.render(500, &params());
    assert_eq!(stage.renderer.worker_record_epochs(), 2, "another output is another worker");
}

#[test]
fn frames_with_filters_record_the_worker_anew() {
    let mut stage = Stage::new();
    let effect = LayerFilterEffect {
        primitive: FilterPrimitive::Offset { dx: 0, dy: 0 },
        layer_blend: 0,
        layer_alpha: 0,
        layer_index: 0,
        is_nested: false,
    };
    for _ in 0..3 {
        stage.render_with(500, &params(), &[effect], false);
    }
    assert_eq!((stage.renderer.worker_record_epochs(), stage.renderer.upload_record_epochs()), (3, 1));
}

#[test]
fn a_frame_for_a_swapchain_is_presented() {
    let mut stage = Stage::new();
    let end = stage.render_with(500, &params(), &[], true);
    let (_, (grant, submission)) = end.submit_to_swapchain().unwrap();
    assert_eq!((grant, submission.handle), (71, 1001));
    let end = stage.render_with(500, &params(), &[], true);
    assert_eq!(stage.renderer.worker_record_epochs(), 1);
    assert_eq!(end.present.unwrap().1.handle, 1002, "the grant of the retained worker is used again");
    let end = stage.render(500, &params());
    assert!(end.present.is_none());
    match end.submit_to_swapchain() {
        Err(Error::Shader(text)) => assert_eq!(text, "missing present grant for swapchain submit"),
        _ => panic!("there is nothing to present"),
    }
}

#[test]
fn counters_of_a_robust_frame_come_back() {
    let mut stage = Stage::new();
    let mut params = params();
    params.robust = true;
    stage.render(500, &params);
    assert!(matches!(stage.renderer.persistent.drain_ready_bump_readbacks(0), BumpDrain::Wait));
    match stage.renderer.persistent.drain_ready_bump_readbacks(1) {
        BumpDrain::Read { grant, submission } => assert_eq!((grant, submission.timeline), (72, 1)),
        BumpDrain::Wait => panic!("the frame is done"),
    }
    let words = [1_u32, 0, 0, 0, 0, 0, 0, 3_000_000, 0];
    let bytes: Vec<u8> = words.iter().flat_map(|w| w.to_le_bytes()).collect();
    stage.renderer.persistent.read_bump_bytes(&bytes);
    assert!(stage.renderer.retry_readback(0), "the frame ran out of room");
    assert!(stage.renderer.persistent.cached_scheme_rt.is_none());
    let end = stage.render(500, &params);
    assert_eq!(end.stats.bump_retries, 1);
    assert_eq!(stage.renderer.persistent_bump.unwrap().lines, 3_000_000);
    let sizes = stage.renderer.persistent.cached_pipeline.unwrap().buffer_sizes;
    assert_eq!(sizes.lines.len(), 4_500_224);
    assert!(!stage.renderer.retry_readback(0));
}

#[test]
fn retries_have_an_end() {
    let mut renderer = SchemeRenderer::new(false);
    renderer.persistent.last_drained_bump = Some(BumpAllocators { failed: 4, ..BumpAllocators::default() });
    let mut attempts = 0;
    while renderer.retry_readback(attempts) {
        attempts += 1;
    }
    assert_eq!(attempts, ekrano::goldy_renderer::MAX_BUMP_RETRIES);
}

#[test]
fn estimates_only_rise() {
    let mut renderer = SchemeRenderer::new(false);
    let config = RenderConfig::new(&Layout::default(), 64, 64, &black());
    for (lines, expected) in [(5, 5), (9, 9), (7, 9)] {
        let mut stats = ekrano::goldy_renderer::FrameStats { bump_retries: 0 };
        let mut c = config;
        let bump = BumpAllocators { lines, ..BumpAllocators::default() };
        renderer.apply_bump_feedback(Some(bump), &Layout::default(), &params(), &mut c, &mut stats);
        assert_eq!(renderer.persistent_bump.unwrap().lines, expected);
        assert_eq!(stats.bump_retries, 0);
        assert!(c.buffer_sizes == config.buffer_sizes);
    }
}

#[test]
fn readback_needs_an_output_image() {
    let mut stage = Stage::new();
    match stage.renderer.readback_target() {
        Err(Error::Shader(text)) => assert_eq!(text, "render_to_buffer: missing scheme out_image"),
        _ => panic!("nothing has been rendered"),
    }
    stage.render(500, &params());
    let target = stage.renderer.readback_target().unwrap();
    assert_eq!((target.width, target.height, target.format), (64, 64, TextureFormat::Rgba8Unorm));
}

#[test]
fn readback_drops_the_padding_of_rows() {
    let mut renderer = SchemeRenderer::new(false);
    let layout = CopyLayout {
        height: 2,
        tight_row_bytes: 4,
        row_pitch: 8,
        footprint_offset: 2,
        staging_bytes: 18,
        logical_bytes: 8,
    };
    let padded: Vec<u8> = (0..18).collect();
    let pixels = renderer.render_to_buffer(&padded, &layout, 33);
    assert_eq!(pixels, vec![2, 3, 4, 5, 10, 11, 12, 13]);
    assert_eq!(renderer.persistent.readback_host_buf, Some(SizedBuffer { size: 18, handle: 33 }));
}

#[test]
fn signals_ask_for_steps() {
    assert_eq!(
        poll_and_reclaim(Signal::BoundaryCrossed { epoch: 9 }),
        vec![ReclaimStep::DrainReturns, ReclaimStep::NotePresented(9)]
    );
    assert_eq!(
        poll_and_reclaim(Signal::Oversubscribed),
        vec![ReclaimStep::WaitOldest, ReclaimStep::FlushDeletions, ReclaimStep::DrainReturns]
    );
    assert_eq!(poll_and_reclaim(Signal::SwapchainReturned { image_index: 2 }), vec![ReclaimStep::ReturnSlot(2)]);
    assert!(poll_and_reclaim(Signal::SwapchainAcquired).is_empty());
}

#[test]
fn dispatches_say_how_they_access() {
    let bindings = [
        Binding::Buf(PipelineBuffer::Config),
        Binding::Present(NodeAccess::Write),
        Binding::Buf(PipelineBuffer::Scene),
    ];
    let types = [BindType::Uniform, BindType::Buffer];
    assert_eq!(
        dispatch_accesses((1, 1, 1), &bindings, &types),
        Some(vec![NodeAccess::Read, NodeAccess::Write, NodeAccess::ReadWrite])
    );
    assert_eq!(dispatch_accesses((1, 0, 1), &bindings, &types), None);
}

#[test]
fn samplers_are_made_once() {
    let mut stage = Stage::new();
    let mut frame = stage.prepared(8, &params(), &[]);
    let start = stage.renderer.start_frame(&mut frame, TextureFormat::Rgba8Unorm, false, false);
    assert!(start.make_linear_sampler && start.make_nearest_sampler && !start.housekeeping);
    stage.renderer.persistent.linear_clamp_sampler = Some(1);
    stage.renderer.persistent.nearest_clamp_sampler = Some(2);
    let mut housekeepings = 0;
    for _ in 0..127 {
        let mut frame = stage.prepared(8, &params(), &[]);
        let start = stage.renderer.start_frame(&mut frame, TextureFormat::Rgba8Unorm, false, false);
        assert!(!start.make_linear_sampler && !start.make_nearest_sampler);
        if start.housekeeping {
            housekeepings += 1;
        }
    }
    assert_eq!(housekeepings, 2);
}

#[test]
fn robustness_can_be_overridden() {
    let renderer = SchemeRenderer::new(false);
    let layout = Layout::default();
    let frame =
        renderer.prepare(&params(), Some(true), vec![], layout, (vec![], 1, 2), (vec![], 3, 4), None, vec![]);
    assert!(frame.params.robust);
    assert_eq!((frame.width(), frame.height()), (64, 64));
    assert_eq!((frame.ramps_width, frame.ramps_height, frame.images_width, frame.images_height), (1, 2, 3, 4));
}
