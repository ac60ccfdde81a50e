use ekrano::gpu_resources::{
    alloc_pipeline_buffer, collect_bindless_indices_into, image_fmt_goldy, is_pool_exempt, GpuBinding, ResourceIndices,
};
use ekrano::resource_proxy::{bind_type_to_node_access, BindType, ImageFormat, NodeAccess, TextureFormat};
use ekrano::Error;

/// Helper that returns a fixed bindless index without touching the GPU.
fn sampler_binding(idx: u32) -> GpuBinding {
    GpuBinding::Sampler(idx)
}

#[test]
fn collect_into_sampler_indices() {
    let bindings = [sampler_binding(7), sampler_binding(3)];
    let bind_types = [BindType::Sampler, BindType::Sampler];

    let mut out = Vec::new();
    collect_bindless_indices_into(&mut out, &bindings, &bind_types, 16).unwrap();

    assert_eq!(out, [7, 3]);
}

#[test]
fn collect_into_clears_previous_contents() {
    let bindings = [sampler_binding(1)];
    let bind_types = [BindType::Sampler];

    let mut out = vec![99_u32; 5];
    collect_bindless_indices_into(&mut out, &bindings, &bind_types, 16).unwrap();

    assert_eq!(out, [1]);
}

#[test]
fn collect_into_reuses_capacity() {
    let mut out: Vec<u32> = Vec::with_capacity(16);

    for _ in 0..3 {
        let bindings = [sampler_binding(5), sampler_binding(6)];
        let bind_types = [BindType::Sampler, BindType::Sampler];
        collect_bindless_indices_into(&mut out, &bindings, &bind_types, 16).unwrap();
        assert_eq!(out, [5, 6]);
    }
}

#[test]
fn collect_into_exceeds_max_slots_returns_err() {
    let bindings = [sampler_binding(0), sampler_binding(1), sampler_binding(2)];
    let bind_types = [BindType::Sampler; 3];

    let mut out = Vec::new();
    let result = collect_bindless_indices_into(&mut out, &bindings, &bind_types, 2);

    assert!(result.is_err(), "expected Err when bindings exceed max_slots");
}

#[test]
fn collect_into_empty_bindings() {
    let mut out = vec![99_u32];
    collect_bindless_indices_into(&mut out, &[], &[], 16).unwrap();
    assert!(out.is_empty());
}

fn indices(read: Option<u32>, write: Option<u32>, read_write: Option<u32>) -> ResourceIndices {
    ResourceIndices { read, write, read_write }
}

fn text_of(r: Result<(), Error>) -> String {
    match r {
        Err(Error::Shader(text)) => text,
        _ => panic!("expected an error"),
    }
}

#[test]
fn buffers_are_given_the_slot_of_their_access() {
    let buf = GpuBinding::Buf(indices(Some(1), Some(2), None));
    let mut out = Vec::new();
    collect_bindless_indices_into(&mut out, &[buf, buf, buf], &[BindType::BufReadOnly, BindType::Buffer], 16).unwrap();
    assert_eq!(out, [1, 2, 2]);
    let blind = GpuBinding::Buf(indices(None, Some(2), None));
    let r = collect_bindless_indices_into(&mut out, &[buf, blind], &[BindType::Buffer, BindType::BufReadOnly], 16);
    assert_eq!(text_of(r), "bindless index missing for shader resource binding");
    assert_eq!(out, [2]);
}

#[test]
fn sampled_textures_fall_back_to_their_storage_slot() {
    let sampled = [BindType::ImageRead(ImageFormat::Rgba8)];
    let stored = [BindType::Image(ImageFormat::Rgba8)];
    let mut out = Vec::new();
    for (indices, slot) in [
        (indices(Some(1), Some(2), Some(3)), 1),
        (indices(None, Some(2), Some(3)), 2),
        (indices(None, None, Some(3)), 3),
    ] {
        collect_bindless_indices_into(&mut out, &[GpuBinding::Tex(indices)], &sampled, 16).unwrap();
        assert_eq!(out, [slot]);
    }
    let none = GpuBinding::Tex(indices(None, None, None));
    let r = collect_bindless_indices_into(&mut out, &[none], &sampled, 16);
    assert_eq!(text_of(r), "resource sampled index missing for ImageRead texture binding");
    let unwritable = GpuBinding::Tex(indices(Some(1), None, Some(3)));
    let r = collect_bindless_indices_into(&mut out, &[unwritable], &stored, 16);
    assert_eq!(text_of(r), "bindless index missing for shader resource binding");
}

#[test]
fn too_many_slots_are_counted() {
    let bindings = [sampler_binding(0), sampler_binding(1), sampler_binding(2)];
    let mut out = Vec::new();
    let r = collect_bindless_indices_into(&mut out, &bindings, &[], 2);
    assert_eq!(text_of(r), "shader requires 3 bindless slots, exceeds limit of 2");
    assert_eq!(out, [0, 1, 2]);
}

#[test]
fn persistent_buffers_keep_their_slot() {
    assert_eq!(GpuBinding::PersistentBuf(9).bindless_slot(true).unwrap(), 9);
    assert_eq!(GpuBinding::PersistentBuf(9).bindless_slot(false).unwrap(), 9);
    assert_eq!(GpuBinding::Tex(indices(Some(4), Some(5), None)).bindless_slot(true).unwrap(), 4);
}

#[test]
fn accesses_follow_the_binding() {
    assert_eq!(bind_type_to_node_access(BindType::Buffer), NodeAccess::ReadWrite);
    assert_eq!(bind_type_to_node_access(BindType::Image(ImageFormat::Rgba8)), NodeAccess::ReadWrite);
    for bt in [BindType::BufReadOnly, BindType::Uniform, BindType::ImageRead(ImageFormat::Bgra8), BindType::Sampler] {
        assert_eq!(bind_type_to_node_access(bt), NodeAccess::Read);
    }
}

#[test]
fn counters_and_indirect_sizes_start_at_zero() {
    assert!(is_pool_exempt("ekrano.bump_buf"));
    assert!(is_pool_exempt("ekrano.indirect_dispatch"));
    assert!(!is_pool_exempt("ekrano.tile_buf"));
    assert_eq!(alloc_pipeline_buffer(36, 36, "ekrano.bump_buf", true).clear, Some((0, 36)));
    assert_eq!(alloc_pipeline_buffer(64, 8, "ekrano.tile_buf", false).clear, None);
    assert_eq!(image_fmt_goldy(ImageFormat::Bgra8), TextureFormat::Bgra8Unorm);
}
