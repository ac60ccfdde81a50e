use ekrano::dispatch_dump::indirect_dims;
use ekrano::goldy_engine::{
    element_stride_for_buffer, force_uav, is_pool_exempt, use_pool, BufferProxy, Command, DataAccess, Demand,
    DrainOutcome, GoldyEngine, GpuTexture, GraphOp, ImageProxy, NodeBinding, PoolStep, Recorder, ResourceProxy,
    SpatialAccess, Supplied, Supply,
};
use ekrano::image::{ImageAlphaType, ImageData};
use ekrano::resource_proxy::{BindType, ImageFormat, NodeAccess, ShaderId, TextureFormat};
use ekrano::Error;

fn buffer(id: u64, size: u64, name: &'static str) -> BufferProxy {
    BufferProxy { id, size, name, element_stride: None, buffer_flags: 0 }
}

fn image(id: u64) -> ImageProxy {
    ImageProxy { id, width: 8, height: 4, format: ImageFormat::Rgba8 }
}

fn supply(handle: u64, size: u64) -> Supply {
    Supply { handle, size, index: Some(handle as u32), srv_index: Some(handle as u32 + 1000) }
}

fn got(list: Vec<Supply>) -> Supplied {
    Supplied { got: list, failed: None }
}

fn nothing_to_drain() -> DrainOutcome {
    DrainOutcome { wait: Ok(()), reads: vec![], read_failed: None }
}

fn started(engine: &mut GoldyEngine) -> Recorder {
    engine.run_recording(nothing_to_drain(), None).recorder.unwrap()
}

fn shader_text<T>(r: Result<T, Error>) -> String {
    match r {
        Err(Error::Shader(text)) => text,
        _ => panic!("expected an error"),
    }
}

#[test]
fn strides_and_exemptions_go_by_name() {
    assert_eq!(element_stride_for_buffer("vello.path_buf"), 32);
    assert_eq!(element_stride_for_buffer("vello.bump_buf"), 32);
    assert_eq!(element_stride_for_buffer("vello.segments_buf"), 24);
    assert_eq!(element_stride_for_buffer("vello.reduced_scan_buf"), 20);
    assert_eq!(element_stride_for_buffer("vello.indirect_count"), 16);
    assert_eq!(element_stride_for_buffer("vello.clip_bic_buf"), 8);
    assert_eq!(element_stride_for_buffer("vello.config"), 100);
    assert_eq!(element_stride_for_buffer("vello.wg_counts"), 320);
    assert_eq!(element_stride_for_buffer("vello.scene"), 4);
    assert_eq!(element_stride_for_buffer("somewhere else"), 4);
    assert!(is_pool_exempt("vello.path_buf"));
    assert!(!is_pool_exempt("vello.scene"));
    assert!(!use_pool(true) && force_uav(true));
    assert!(use_pool(false) && !force_uav(false));
}

#[test]
fn uploads_write_the_buffer_that_is_there() {
    let mut engine = GoldyEngine::new();
    let mut rec = started(&mut engine);
    let scene = buffer(1, 64, "vello.scene");
    let upload = Command::Upload(scene, vec![0; 64]);
    assert_eq!(
        engine.demands(&upload),
        vec![Demand::Buffer { size: 64, name: "vello.scene", stride: 4, flags: 0 }]
    );
    let r = engine.record(&mut rec, &upload, got(vec![supply(5, 64)]), false).unwrap();
    assert_eq!(r.ops, vec![GraphOp::WriteBuffer { handle: 5 }]);
    assert!(!rec.graph_empty);
    let again = Command::Upload(scene, vec![0; 32]);
    assert_eq!(engine.demands(&again), vec![]);
    let r = engine.record(&mut rec, &again, got(vec![]), false).unwrap();
    assert_eq!(r.ops, vec![GraphOp::WriteBuffer { handle: 5 }]);
    let larger = Command::Upload(scene, vec![0; 65]);
    assert_eq!(engine.demands(&larger).len(), 1);
    let flagged = Command::Upload(BufferProxy { buffer_flags: 2, ..scene }, vec![0; 8]);
    assert_eq!(engine.demands(&flagged).len(), 1);
}

#[test]
fn uniforms_are_written_after_a_flush() {
    let mut engine = GoldyEngine::new();
    let mut rec = started(&mut engine);
    let config = buffer(1, 100, "vello.config");
    let first = Command::UploadUniform(config, vec![0; 100]);
    assert_eq!(engine.demands(&first), vec![Demand::Uniform { size: 100, name: "vello.config", stride: 100 }]);
    let r = engine.record(&mut rec, &first, got(vec![supply(5, 100)]), false).unwrap();
    assert_eq!(r.ops, vec![]);
    assert!(rec.graph_empty);
    assert_eq!(engine.bufs[&1].0.access, DataAccess::Broadcast);
    let r = engine.record(&mut rec, &first, got(vec![]), false).unwrap();
    assert_eq!(r.ops, vec![GraphOp::WriteNow { handle: 5 }]);
    let scene = Command::Upload(buffer(2, 4, "vello.scene"), vec![0; 4]);
    engine.record(&mut rec, &scene, got(vec![supply(6, 4)]), false).unwrap();
    let r = engine.record(&mut rec, &first, got(vec![]), false).unwrap();
    assert_eq!(r.ops, vec![GraphOp::Submit, GraphOp::WriteNow { handle: 5 }]);
    assert!(rec.graph_empty);
}

#[test]
fn images_are_uploaded_and_written() {
    let mut engine = GoldyEngine::new();
    let mut rec = started(&mut engine);
    let upload = Command::UploadImage(image(1), vec![0; 128]);
    assert_eq!(
        engine.demands(&upload),
        vec![Demand::Texture {
            width: 8,
            height: 4,
            format: TextureFormat::Rgba8Unorm,
            access: SpatialAccess::Interpolated,
            copy_src: false,
            upload: true,
        }]
    );
    engine.record(&mut rec, &upload, got(vec![supply(7, 0)]), false).unwrap();
    assert_eq!(engine.images[&1].1, "uploaded_image");
    let data = ImageData {
        id: 3,
        format: ImageFormat::Rgba8,
        alpha_type: ImageAlphaType::Alpha,
        width: 1,
        height: 1,
    };
    let there = Command::WriteImage(image(1), [5, 6], data, vec![1, 2, 3, 4]);
    assert_eq!(engine.demands(&there), vec![]);
    let r = engine.record(&mut rec, &there, got(vec![]), false).unwrap();
    assert_eq!(r.ops, vec![GraphOp::WriteRegion { handle: 7, x: 5, y: 6, width: 1, height: 1 }]);
    let fresh = Command::WriteImage(image(2), [0, 0], data, vec![1, 2, 3, 4]);
    assert_eq!(engine.demands(&fresh).len(), 1);
    let r = engine.record(&mut rec, &fresh, got(vec![supply(8, 0)]), false).unwrap();
    assert_eq!(r.ops, vec![GraphOp::WriteRegion { handle: 8, x: 0, y: 0, width: 1, height: 1 }]);
    assert_eq!(engine.images[&2].1, "write_image_target");
}

#[test]
fn clears_reach_to_the_end_of_the_buffer() {
    let mut engine = GoldyEngine::new();
    let mut rec = started(&mut engine);
    let bump = buffer(1, 36, "vello.bump_buf");
    let clear = Command::Clear(bump, 4, None);
    assert_eq!(engine.demands(&clear).len(), 1);
    let r = engine.record(&mut rec, &clear, got(vec![supply(5, 40)]), false).unwrap();
    assert_eq!(r.ops, vec![GraphOp::ClearBuffer { handle: 5, view: false, offset: 4, size: 36 }]);
    let part = Command::Clear(bump, 8, Some(12));
    let r = engine.record(&mut rec, &part, got(vec![]), false).unwrap();
    assert_eq!(r.ops, vec![GraphOp::ClearBuffer { handle: 5, view: false, offset: 8, size: 12 }]);
}

#[test]
fn dispatches_bring_their_resources() {
    let mut engine = GoldyEngine::new();
    engine.prepare_storage_pool(false, 1 << 20, Ok(1 << 20)).unwrap();
    let shader = engine
        .add_compute_shader(
            vec![BindType::BufReadOnly, BindType::Buffer, BindType::Image(ImageFormat::Rgba8)],
            Ok(()),
        )
        .unwrap();
    assert_eq!(shader, ShaderId(0));
    let start = engine.run_recording(nothing_to_drain(), None);
    assert_eq!(start.clear_pool, Some(1 << 20));
    let mut rec = start.recorder.unwrap();
    assert!(!rec.graph_empty);
    let bindings = vec![
        ResourceProxy::Buffer(buffer(1, 64, "vello.scene")),
        ResourceProxy::Buffer(buffer(2, 32, "vello.bump_buf")),
        ResourceProxy::Image(image(3)),
        ResourceProxy::BufferRange { proxy: buffer(1, 64, "vello.scene"), offset: 0, size: 4 },
    ];
    let command = Command::Dispatch(shader, (2, 1, 1), bindings, vec![9]);
    assert_eq!(
        engine.demands(&command),
        vec![
            Demand::PoolView { size: 64, stride: 4 },
            Demand::Buffer { size: 32, name: "vello.bump_buf", stride: 32, flags: 0 },
            Demand::Texture {
                width: 8,
                height: 4,
                format: TextureFormat::Rgba8Unorm,
                access: SpatialAccess::Direct,
                copy_src: true,
                upload: false,
            },
        ]
    );
    let supplies = vec![supply(10, 64), supply(11, 32), supply(12, 0)];
    let r = engine.record(&mut rec, &command, got(supplies), false).unwrap();
    assert_eq!(r.ops, vec![GraphOp::ClearBuffer { handle: 11, view: false, offset: 0, size: 32 }]);
    let node = r.dispatch.unwrap();
    assert_eq!(node.shader, 0);
    assert_eq!(node.dims, (2, 1, 1));
    assert_eq!(node.indices, vec![1010, 11, 12, 10]);
    assert_eq!(node.push_tail, vec![9]);
    assert_eq!(
        node.bindings,
        vec![
            NodeBinding::View { handle: 10, access: NodeAccess::Read },
            NodeBinding::Buffer { handle: 11, access: NodeAccess::ReadWrite },
            NodeBinding::Texture { handle: 12, access: NodeAccess::ReadWrite },
            NodeBinding::View { handle: 10, access: NodeAccess::ReadWrite },
        ]
    );
    assert_eq!(rec.dispatch_count, 1);
    // Everything is there by now, and a software adapter is given read/write slots throughout.
    assert_eq!(engine.demands(&command), vec![]);
    let r = engine.record(&mut rec, &command, got(vec![]), true).unwrap();
    assert_eq!(r.dispatch.unwrap().indices, vec![10, 11, 12, 10]);
}

#[test]
fn empty_grids_are_left_out() {
    let mut engine = GoldyEngine::new();
    let mut rec = started(&mut engine);
    let command =
        Command::Dispatch(ShaderId(5), (2, 0, 1), vec![ResourceProxy::Buffer(buffer(1, 4, "vello.scene"))], vec![]);
    assert_eq!(engine.demands(&command), vec![]);
    let r = engine.record(&mut rec, &command, got(vec![]), false).unwrap();
    assert!(r.dispatch.is_none() && r.ops.is_empty());
    assert!(rec.graph_empty);
    assert_eq!(rec.dispatch_count, 0);
}

#[test]
fn failed_demands_end_the_recording() {
    let mut engine = GoldyEngine::new();
    let shader = engine.add_compute_shader(vec![BindType::Buffer, BindType::Buffer], Ok(())).unwrap();
    let mut rec = started(&mut engine);
    let command = Command::Dispatch(
        shader,
        (1, 1, 1),
        vec![
            ResourceProxy::Buffer(buffer(1, 4, "vello.scene")),
            ResourceProxy::Buffer(buffer(2, 4, "vello.ptcl_buf")),
        ],
        vec![],
    );
    let supplied = Supplied { got: vec![supply(3, 4)], failed: Some(Error::Shader("full".to_string())) };
    assert_eq!(shader_text(engine.record(&mut rec, &command, supplied, false)), "full");
    assert!(engine.bufs.contains_key(&1), "what was acquired before stays");
    assert!(!engine.bufs.contains_key(&2));
    let upload = Command::Upload(buffer(2, 4, "vello.ptcl_buf"), vec![0; 4]);
    let supplied = Supplied { got: vec![], failed: Some(Error::Shader("still full".to_string())) };
    assert_eq!(shader_text(engine.record(&mut rec, &upload, supplied, false)), "still full");
}

#[test]
fn missing_slots_are_explained() {
    let mut engine = GoldyEngine::new();
    let scene = ResourceProxy::Buffer(buffer(1, 4, "vello.scene"));
    let read = [BindType::BufReadOnly];
    assert_eq!(shader_text(engine.collect_bindless_indices(&[scene], &read, false)), "buffer not found");
    let picture = ResourceProxy::Image(image(9));
    assert_eq!(
        shader_text(engine.collect_bindless_indices(&[picture], &[], false)),
        "image not found in bind map (id=9, 8x4)"
    );
    let mut rec = started(&mut engine);
    let blind = Supply { handle: 2, size: 4, index: None, srv_index: None };
    let upload = Command::Upload(buffer(1, 4, "vello.scene"), vec![0; 4]);
    engine.record(&mut rec, &upload, got(vec![blind]), false).unwrap();
    let upload = Command::UploadImage(image(9), vec![0; 128]);
    engine.record(&mut rec, &upload, got(vec![blind]), false).unwrap();
    assert_eq!(shader_text(engine.collect_bindless_indices(&[scene], &read, false)), "buffer has no SRV index");
    assert_eq!(shader_text(engine.collect_bindless_indices(&[scene], &read, true)), "buffer has no bindless index");
    assert_eq!(
        shader_text(engine.collect_bindless_indices(&[picture], &[], false)),
        "image 'uploaded_image' (id=9) exists but has no bindless index"
    );
    let upload = Command::Upload(buffer(4, 4, "vello.scene"), vec![0; 4]);
    engine.record(&mut rec, &upload, got(vec![supply(3, 4)]), false).unwrap();
    let many = vec![ResourceProxy::Buffer(buffer(4, 4, "vello.scene")); 17];
    assert_eq!(
        shader_text(engine.collect_bindless_indices(&many, &[], false)),
        "shader requires 17 bindless slots, exceeds limit of 16"
    );
    assert_eq!(engine.collect_bindless_indices(&many[1..], &[], false).unwrap(), vec![3; 16]);
}

#[test]
fn indirect_dispatches_need_a_buffer_of_their_own() {
    let mut engine = GoldyEngine::new();
    let shader = engine.add_compute_shader(vec![], Ok(())).unwrap();
    let mut rec = started(&mut engine);
    let counts = buffer(1, 64, "vello.indirect_dispatch");
    let command = Command::DispatchIndirect(shader, counts, 16, vec![]);
    assert_eq!(engine.demands(&command).len(), 1);
    let r = engine.record(&mut rec, &command, got(vec![supply(5, 64)]), false).unwrap();
    assert_eq!(r.ops.len(), 1);
    let node = r.dispatch.unwrap();
    assert_eq!(node.indirect, Some((5, 16)));
    assert_eq!(node.bindings, vec![NodeBinding::Buffer { handle: 5, access: NodeAccess::Read }]);
    engine.storage_pool = Some(1000);
    let pooled = Command::DispatchIndirect(shader, buffer(2, 64, "vello.scene"), 0, vec![]);
    let r = engine.record(&mut rec, &pooled, got(vec![supply(6, 64)]), false).unwrap();
    assert!(r.dispatch.is_none());
    assert_eq!(rec.dispatch_count, 1);
}

#[test]
fn downloads_and_frees_wait_for_the_gpu() {
    let mut engine = GoldyEngine::new();
    let mut rec = started(&mut engine);
    let bump = buffer(1, 36, "vello.bump_buf");
    let other = buffer(2, 4, "vello.ptcl_buf");
    for (proxy, handle) in [(bump, 5), (other, 6)] {
        let clear = Command::Clear(proxy, 0, None);
        engine.record(&mut rec, &clear, got(vec![supply(handle, proxy.size)]), false).unwrap();
    }
    engine.record(&mut rec, &Command::UploadImage(image(3), vec![0; 128]), got(vec![supply(7, 0)]), false).unwrap();
    for command in [
        Command::Download(bump),
        Command::Download(other),
        Command::FreeBuffer(other),
        Command::FreeImage(image(3)),
        Command::Draw,
    ] {
        engine.record(&mut rec, &command, got(vec![]), false).unwrap();
    }
    assert!(rec.flush());
    engine.finish_recording(rec, Some(11));
    assert!(engine.bufs.contains_key(&2), "nothing is freed before the work has completed");
    let request = engine.drain_request().unwrap();
    assert_eq!(request.timeline, 11);
    assert_eq!(request.reads, vec![(5, 36), (6, 4)]);
    let words: [u32; 9] = [0, 1, 2, 3, 4, 5, 6, 7, 8];
    let bytes: Vec<u8> = words.iter().flat_map(|w| w.to_ne_bytes()).collect();
    let outcome = DrainOutcome { wait: Ok(()), reads: vec![bytes, vec![1, 2, 3, 4]], read_failed: None };
    let drained = engine.finish_frame_for_readback(outcome);
    assert!(drained.result.is_ok());
    assert_eq!(drained.released, vec![7]);
    assert!(engine.bufs.contains_key(&1) && !engine.bufs.contains_key(&2));
    assert!(engine.images.is_empty());
    assert_eq!(engine.get_download(other), Some(&[1_u8, 2, 3, 4][..]));
    assert_eq!(engine.get_download(bump), None);
    assert_eq!(engine.last_drained_bump().map(|b| b.lines), Some(7));
    assert_eq!(engine.take_last_drained_bump().map(|b| b.binning), Some(1));
    assert!(engine.last_drained_bump().is_none());
    assert_eq!(shader_text(engine.read_bump_allocators(&bump)), "bump buffer download not available");
    assert!(engine.drain_request().is_none());
}

#[test]
fn a_fault_frees_but_reads_nothing() {
    let mut engine = GoldyEngine::new();
    let mut rec = started(&mut engine);
    let other = buffer(2, 4, "vello.ptcl_buf");
    engine.record(&mut rec, &Command::Clear(other, 0, None), got(vec![supply(6, 4)]), false).unwrap();
    engine.record(&mut rec, &Command::Download(other), got(vec![]), false).unwrap();
    engine.record(&mut rec, &Command::FreeBuffer(other), got(vec![]), false).unwrap();
    engine.finish_recording(rec, Some(1));
    let outcome = DrainOutcome { wait: Err(Error::Shader("fault".to_string())), reads: vec![], read_failed: None };
    let drained = engine.wait_until_gpu_idle(outcome);
    assert_eq!(shader_text(drained.result), "fault");
    assert!(engine.bufs.is_empty());
    assert!(engine.downloads.is_empty());
    assert!(engine.prev_pending_downloads.is_empty());
}

#[test]
fn a_failed_read_leaves_the_frees() {
    let mut engine = GoldyEngine::new();
    let mut rec = started(&mut engine);
    let other = buffer(2, 4, "vello.ptcl_buf");
    engine.record(&mut rec, &Command::Clear(other, 0, None), got(vec![supply(6, 4)]), false).unwrap();
    engine.record(&mut rec, &Command::Download(other), got(vec![]), false).unwrap();
    engine.record(&mut rec, &Command::FreeBuffer(other), got(vec![]), false).unwrap();
    engine.finish_recording(rec, Some(1));
    let outcome = DrainOutcome { wait: Ok(()), reads: vec![], read_failed: Some(Error::Shader("lost".to_string())) };
    let start = engine.run_recording(outcome, None);
    assert_eq!(shader_text(start.recorder), "lost");
    assert!(engine.bufs.contains_key(&2));
    assert_eq!(engine.prev_deferred_free_buffers, vec![2]);
}

#[test]
fn an_open_frame_blocks_other_work() {
    let mut engine = GoldyEngine::new();
    let texture = GpuTexture { handle: 50, index: Some(1) };
    let start = engine.run_recording_to_frame(nothing_to_drain(), 40, texture);
    let rec = start.recorder.unwrap();
    assert!(rec.surface);
    assert_eq!(engine.images[&40], (texture, "output"));
    engine.finish_recording(rec, None);
    let text = shader_text(engine.run_recording(nothing_to_drain(), None).recorder);
    assert_eq!(
        text,
        "GoldyEngine: swapchain frame still open — call frame.present() then GoldyEngine::after_surface_present(tv) before more GPU work."
    );
    assert!(engine.assert_no_surface_frame_in_flight().is_err());
    engine.after_surface_present(77).unwrap();
    assert_eq!(engine.prev_frame_timeline, Some(77));
    assert_eq!(
        shader_text(engine.after_surface_present(78)),
        "GoldyEngine::after_surface_present: no surface frame in flight (forgot run_recording_to_frame, or called twice)"
    );
    assert!(engine.run_recording(nothing_to_drain(), None).recorder.is_ok());
    assert!(engine.images.is_empty(), "the output image is let go");
}

#[test]
fn storage_pools_grow_or_start_over() {
    let mut engine = GoldyEngine::new();
    assert_eq!(engine.pool_step(true, 10), PoolStep::Skip);
    engine.prepare_storage_pool(true, 10, Ok(10)).unwrap();
    assert_eq!(engine.storage_pool, None);
    assert_eq!(engine.pool_step(false, 10), PoolStep::Renew);
    engine.prepare_storage_pool(false, 10, Ok(16)).unwrap();
    assert!(engine.pool_clear_in_next_submit);
    assert_eq!(engine.pool_step(false, 16), PoolStep::Reset);
    engine.prepare_storage_pool(false, 16, Ok(1)).unwrap();
    assert_eq!(engine.storage_pool, Some(16));
    let r = engine.prepare_storage_pool(false, 17, Err(Error::Shader("no memory".to_string())));
    assert_eq!(shader_text(r), "no memory");
    assert_eq!(engine.storage_pool, None);
}

#[test]
fn transients_can_be_cleared() {
    let mut engine = GoldyEngine::new();
    let mut rec = started(&mut engine);
    engine.record(&mut rec, &Command::UploadImage(image(3), vec![0; 128]), got(vec![supply(7, 0)]), false).unwrap();
    let clear = Command::Clear(buffer(1, 4, "vello.scene"), 0, None);
    engine.record(&mut rec, &clear, got(vec![supply(8, 4)]), false).unwrap();
    engine.finish_recording(rec, None);
    engine.storage_pool = Some(4);
    assert!(engine.release_pool(nothing_to_drain()).result.is_ok());
    assert!(engine.bufs.is_empty() && !engine.images.is_empty());
    assert_eq!(engine.storage_pool, None);
    assert!(engine.clear_transients(nothing_to_drain()).result.is_ok());
    assert!(engine.images.is_empty());
}

#[test]
fn shaders_that_do_not_compile_are_not_added() {
    let mut engine = GoldyEngine::new();
    let r = engine.add_compute_shader(vec![], Err(Error::Shader("syntax".to_string())));
    assert_eq!(shader_text(r), "syntax");
    assert_eq!(engine.add_compute_shader(vec![], Ok(())).unwrap(), ShaderId(0));
    assert_eq!(engine.add_compute_shader(vec![], Ok(())).unwrap(), ShaderId(1));
}

#[test]
fn dispatches_are_dumped() {
    let mut engine = GoldyEngine::new();
    let mut rec = started(&mut engine);
    let scene = buffer(1, 4, "vello.scene");
    let clear = Command::Clear(scene, 0, None);
    engine.record(&mut rec, &clear, got(vec![supply(8, 4)]), false).unwrap();
    let bindings = [
        ResourceProxy::Buffer(scene),
        ResourceProxy::Buffer(buffer(2, 4, "vello.scene")),
        ResourceProxy::Image(image(3)),
        ResourceProxy::Buffer(scene),
    ];
    let reads = engine.dump_reads(&bindings);
    assert_eq!(reads.iter().map(|r| (r.0, r.1.handle)).collect::<Vec<_>>(), vec![(0, 8), (3, 8)]);
    let text = engine.dump_dispatch(ShaderId(2), (1, 2, 3), &bindings, &[8, 9], &[true, false, false, false]);
    assert_eq!(
        text,
        "shader_id: 2\ndispatch: (1, 2, 3)\nnum_bindings: 4\nresource_slots: [8, 9]\n\
         binding[0]: buf name=vello.scene size=4 bindless=8\n\
         binding[2]: image 8x4 id=3\n\
         binding[3]: buf name=vello.scene size=4 bindless=8\n  (read failed)\n"
    );
    let empty = engine.dump_dispatch(ShaderId(0), (0, 0, 0), &[], &[], &[]);
    assert_eq!(empty, "shader_id: 0\ndispatch: (0, 0, 0)\nnum_bindings: 0\nresource_slots: []\n");
}

#[test]
fn indirect_sizes_are_read() {
    let mut bytes: Vec<u8> = vec![0; 20];
    bytes[4..8].copy_from_slice(&5_u32.to_le_bytes());
    bytes[8..12].copy_from_slice(&0x0102_0304_u32.to_le_bytes());
    bytes[12..16].copy_from_slice(&u32::MAX.to_le_bytes());
    assert_eq!(indirect_dims(None, Some(&bytes), 4), (5, 0x0102_0304, u32::MAX));
    assert_eq!(indirect_dims(None, Some(&bytes), 9), (0, 0, 0));
    assert_eq!(indirect_dims(None, Some(&bytes), u64::MAX), (0, 0, 0));
    assert_eq!(indirect_dims(Some(&bytes[..12]), Some(&bytes), 4), (0, 0, 0));
    assert_eq!(indirect_dims(None, None, 0), (0, 0, 0));
}
