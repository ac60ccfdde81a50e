//! GPU resources of a frame: what is asked of the pools, what is used again, and the bytes that are
//! uploaded.

use crate::config::{
    BufferSize, BufferSizes, ConfigUniform, RenderConfig, WorkgroupCountsGpu, N_INDIRECT_STAGES, STAGE_PATH_COUNT,
    STAGE_PATH_TILING,
};
use crate::coverage_mask::CoverageMask;
use crate::filter::FilterUniform;
use crate::goldy_renderer::{
    AtlasCache, AtlasTexture, PersistentState, SizedBuffer, TargetStep, TargetTexture, TextureUpload,
};
use crate::image::{ImageAlphaType, ImageData};
use crate::layout::Element;
use crate::math::{max_int, max_u64};
use crate::pixels::{
    expand_mask, gray_pixels, holds_words, pack_rgba_to_pitch, pitched_rows, premultiplied_bytes, premultiply_rgba8,
    rows_fit_memory, words_to_bytes,
};
use crate::recording::SamplerSlot;
use crate::resource_proxy::{TextureFlags, TextureFormat, TextureKind, TextureRequest};
use crate::upload_laws::plan_serves;
use crate::worker_retention::{
    gradient_atlas, image_atlas, is_bucket_of, mask_atlas, normalize_gradient_atlas, normalize_image_atlas,
    normalize_mask_atlas, note_scene_bucket_crossing, scene_size_bucket, Region,
};
use crate::{Error, RenderParams};
use vstd::prelude::*;
use vstd::string::*;

verus! {

/// Bytes of an element of the scene buffer.
pub const SCENE_STRIDE: u32 = 4;

/// A buffer that is asked of a pool.
#[derive(Clone, Copy, Debug, PartialEq, Eq)]
pub struct BufferRequest {
    pub size: u64,
    /// Bytes of an element.
    pub stride: u32,
    pub label: &'static str,
}

/// The seven large pipeline buffers whose sizes are fixed or change only on coarse
/// config changes. They are retained and reused while the buffer sizes match.
#[derive(Clone, Copy, Debug, PartialEq, Eq, Structural)]
pub struct StablePipelineBuffers {
    pub info_bin_data: u64,
    pub tile: u64,
    pub segments: u64,
    pub ptcl: u64,
    pub blend_spill: u64,
    pub lines: u64,
    pub seg_counts: u64,
}

/// The fourteen count-derived scratch buffers whose sizes track scene complexity.
#[derive(Clone, Copy, Debug, PartialEq, Eq, Structural)]
pub struct ScratchPipelineBuffers {
    pub reduced: u64,
    pub reduced2: u64,
    pub reduced_scan: u64,
    pub tagmonoid: u64,
    pub path_bbox: u64,
    pub draw_reduced: u64,
    pub draw_monoid: u64,
    pub clip_inp: u64,
    pub clip_el: u64,
    pub clip_bic: u64,
    pub clip_bbox: u64,
    pub draw_bbox: u64,
    pub bin_header: u64,
    pub path: u64,
}

/// Where a set of buffers comes from.
#[derive(Debug)]
pub enum BufferStep<T> {
    /// The set of the previous frame.
    Reuse(T),
    /// New buffers, in the order of the fields.
    Acquire(Vec<BufferRequest>),
}

impl StablePipelineBuffers {
    /// The sizes in bytes can be counted.
    pub open spec fn can_request(bs: BufferSizes) -> bool {
        &&& bs.bin_data.bytes() <= u32::MAX
        &&& bs.tiles.bytes() <= u32::MAX
        &&& bs.segments.bytes() <= u32::MAX
        &&& bs.ptcl.bytes() <= u32::MAX
        &&& bs.blend_spill.bytes() <= u32::MAX
        &&& bs.lines.bytes() <= u32::MAX
        &&& bs.seg_counts.bytes() <= u32::MAX
    }

    /// The stable buffers that a frame asks for, in the order of the fields.
    pub open spec fn requests(bs: BufferSizes) -> Seq<BufferRequest> {
        seq![
            BufferRequest { size: bs.bin_data.bytes() as u64, stride: 4, label: "ekrano.info_bin_data_buf" },
            BufferRequest { size: bs.tiles.bytes() as u64, stride: 8, label: "ekrano.tile_buf" },
            BufferRequest { size: bs.segments.bytes() as u64, stride: 24, label: "ekrano.segments_buf" },
            BufferRequest { size: bs.ptcl.bytes() as u64, stride: 4, label: "ekrano.ptcl_buf" },
            BufferRequest { size: bs.blend_spill.bytes() as u64, stride: 4, label: "ekrano.blend_spill" },
            BufferRequest { size: bs.lines.bytes() as u64, stride: 24, label: "ekrano.lines_buf" },
            BufferRequest { size: bs.seg_counts.bytes() as u64, stride: 8, label: "ekrano.seg_counts_buf" },
        ]
    }

    /// Reuses the buffers of the previous frame, or asks for new ones.
    pub fn acquire(cached: Option<Self>, bs: &BufferSizes) -> (step: BufferStep<Self>)
        requires
            Self::can_request(*bs),
        ensures
            match cached {
                Some(c) => step == BufferStep::Reuse(c),
                None => step matches BufferStep::Acquire(v) && v@ == Self::requests(*bs),
            },
    {
        match cached {
            Some(c) => BufferStep::Reuse(c),
            None => {
                let v: Vec<BufferRequest> = vec![
                    BufferRequest { size: bs.bin_data.size_in_bytes() as u64, stride: 4, label: "ekrano.info_bin_data_buf" },
                    BufferRequest { size: bs.tiles.size_in_bytes() as u64, stride: 8, label: "ekrano.tile_buf" },
                    BufferRequest { size: bs.segments.size_in_bytes() as u64, stride: 24, label: "ekrano.segments_buf" },
                    BufferRequest { size: bs.ptcl.size_in_bytes() as u64, stride: 4, label: "ekrano.ptcl_buf" },
                    BufferRequest { size: bs.blend_spill.size_in_bytes() as u64, stride: 4, label: "ekrano.blend_spill" },
                    BufferRequest { size: bs.lines.size_in_bytes() as u64, stride: 24, label: "ekrano.lines_buf" },
                    BufferRequest { size: bs.seg_counts.size_in_bytes() as u64, stride: 8, label: "ekrano.seg_counts_buf" },
                ];
                assert(v@ =~= Self::requests(*bs));
                BufferStep::Acquire(v)
            },
        }
    }

    /// The handles in the order of the fields.
    pub open spec fn spec_handles(self) -> Seq<u64> {
        seq![self.info_bin_data, self.tile, self.segments, self.ptcl, self.blend_spill, self.lines, self.seg_counts]
    }

    /// The handles in the order of the fields.
    pub fn handles(&self) -> (v: Vec<u64>)
        ensures
            v@ == self.spec_handles(),
    {
        let v: Vec<u64> = vec![self.info_bin_data, self.tile, self.segments, self.ptcl, self.blend_spill, self.lines, self.seg_counts];
        assert(v@ =~= self.spec_handles());
        v
    }

    /// Buffers by their handles, in the order of the fields.
    pub fn from_handles(handles: &[u64]) -> (b: Self)
        requires
            handles@.len() == 7,
        ensures
            b.spec_handles() == handles@,
    {
        let b: Self = StablePipelineBuffers {
            info_bin_data: handles[0],
            tile: handles[1],
            segments: handles[2],
            ptcl: handles[3],
            blend_spill: handles[4],
            lines: handles[5],
            seg_counts: handles[6],
        };
        assert(b.spec_handles() =~= handles@);
        b
    }
}

impl ScratchPipelineBuffers {
    /// The sizes in bytes can be counted.
    pub open spec fn can_request(bs: BufferSizes) -> bool {
        &&& bs.path_reduced.bytes() <= u32::MAX
        &&& bs.path_reduced2.bytes() <= u32::MAX
        &&& bs.path_reduced_scan.bytes() <= u32::MAX
        &&& bs.path_monoids.bytes() <= u32::MAX
        &&& bs.path_bboxes.bytes() <= u32::MAX
        &&& bs.draw_reduced.bytes() <= u32::MAX
        &&& bs.draw_monoids.bytes() <= u32::MAX
        &&& bs.clip_inps.bytes() <= u32::MAX
        &&& bs.clip_els.bytes() <= u32::MAX
        &&& bs.clip_bics.bytes() <= u32::MAX
        &&& bs.clip_bboxes.bytes() <= u32::MAX
        &&& bs.draw_bboxes.bytes() <= u32::MAX
        &&& bs.bin_headers.bytes() <= u32::MAX
        &&& bs.paths.bytes() <= u32::MAX
    }

    /// The scratch buffers that a frame asks for, in the order of the fields.
    pub open spec fn requests(bs: BufferSizes) -> Seq<BufferRequest> {
        seq![
            BufferRequest { size: bs.path_reduced.bytes() as u64, stride: 20, label: "ekrano.reduced_buf" },
            BufferRequest { size: bs.path_reduced2.bytes() as u64, stride: 20, label: "ekrano.reduced2_buf" },
            BufferRequest { size: bs.path_reduced_scan.bytes() as u64, stride: 20, label: "ekrano.reduced_scan_buf" },
            BufferRequest { size: bs.path_monoids.bytes() as u64, stride: 20, label: "ekrano.tagmonoid_buf" },
            BufferRequest { size: bs.path_bboxes.bytes() as u64, stride: 24, label: "ekrano.path_bbox_buf" },
            BufferRequest { size: bs.draw_reduced.bytes() as u64, stride: 16, label: "ekrano.draw_reduced_buf" },
            BufferRequest { size: bs.draw_monoids.bytes() as u64, stride: 16, label: "ekrano.draw_monoid_buf" },
            BufferRequest { size: bs.clip_inps.bytes() as u64, stride: 8, label: "ekrano.clip_inp_buf" },
            BufferRequest { size: bs.clip_els.bytes() as u64, stride: 32, label: "ekrano.clip_el_buf" },
            BufferRequest { size: bs.clip_bics.bytes() as u64, stride: 8, label: "ekrano.clip_bic_buf" },
            BufferRequest { size: bs.clip_bboxes.bytes() as u64, stride: 16, label: "ekrano.clip_bbox_buf" },
            BufferRequest { size: bs.draw_bboxes.bytes() as u64, stride: 16, label: "ekrano.draw_bbox_buf" },
            BufferRequest { size: bs.bin_headers.bytes() as u64, stride: 8, label: "ekrano.bin_header_buf" },
            BufferRequest { size: bs.paths.bytes() as u64, stride: 32, label: "ekrano.path_buf" },
        ]
    }

    /// Reuses the buffers of the previous frame, or asks for new ones.
    pub fn acquire(cached: Option<Self>, bs: &BufferSizes) -> (step: BufferStep<Self>)
        requires
            Self::can_request(*bs),
        ensures
            match cached {
                Some(c) => step == BufferStep::Reuse(c),
                None => step matches BufferStep::Acquire(v) && v@ == Self::requests(*bs),
            },
    {
        match cached {
            Some(c) => BufferStep::Reuse(c),
            None => {
                let v: Vec<BufferRequest> = vec![
                    BufferRequest { size: bs.path_reduced.size_in_bytes() as u64, stride: 20, label: "ekrano.reduced_buf" },
                    BufferRequest { size: bs.path_reduced2.size_in_bytes() as u64, stride: 20, label: "ekrano.reduced2_buf" },
                    BufferRequest { size: bs.path_reduced_scan.size_in_bytes() as u64, stride: 20, label: "ekrano.reduced_scan_buf" },
                    BufferRequest { size: bs.path_monoids.size_in_bytes() as u64, stride: 20, label: "ekrano.tagmonoid_buf" },
                    BufferRequest { size: bs.path_bboxes.size_in_bytes() as u64, stride: 24, label: "ekrano.path_bbox_buf" },
                    BufferRequest { size: bs.draw_reduced.size_in_bytes() as u64, stride: 16, label: "ekrano.draw_reduced_buf" },
                    BufferRequest { size: bs.draw_monoids.size_in_bytes() as u64, stride: 16, label: "ekrano.draw_monoid_buf" },
                    BufferRequest { size: bs.clip_inps.size_in_bytes() as u64, stride: 8, label: "ekrano.clip_inp_buf" },
                    BufferRequest { size: bs.clip_els.size_in_bytes() as u64, stride: 32, label: "ekrano.clip_el_buf" },
                    BufferRequest { size: bs.clip_bics.size_in_bytes() as u64, stride: 8, label: "ekrano.clip_bic_buf" },
                    BufferRequest { size: bs.clip_bboxes.size_in_bytes() as u64, stride: 16, label: "ekrano.clip_bbox_buf" },
                    BufferRequest { size: bs.draw_bboxes.size_in_bytes() as u64, stride: 16, label: "ekrano.draw_bbox_buf" },
                    BufferRequest { size: bs.bin_headers.size_in_bytes() as u64, stride: 8, label: "ekrano.bin_header_buf" },
                    BufferRequest { size: bs.paths.size_in_bytes() as u64, stride: 32, label: "ekrano.path_buf" },
                ];
                assert(v@ =~= Self::requests(*bs));
                BufferStep::Acquire(v)
            },
        }
    }

    /// The handles in the order of the fields.
    pub open spec fn spec_handles(self) -> Seq<u64> {
        seq![self.reduced, self.reduced2, self.reduced_scan, self.tagmonoid, self.path_bbox, self.draw_reduced, self.draw_monoid, self.clip_inp, self.clip_el, self.clip_bic, self.clip_bbox, self.draw_bbox, self.bin_header, self.path]
    }

    /// The handles in the order of the fields.
    pub fn handles(&self) -> (v: Vec<u64>)
        ensures
            v@ == self.spec_handles(),
    {
        let v: Vec<u64> = vec![self.reduced, self.reduced2, self.reduced_scan, self.tagmonoid, self.path_bbox, self.draw_reduced, self.draw_monoid, self.clip_inp, self.clip_el, self.clip_bic, self.clip_bbox, self.draw_bbox, self.bin_header, self.path];
        assert(v@ =~= self.spec_handles());
        v
    }

    /// Buffers by their handles, in the order of the fields.
    pub fn from_handles(handles: &[u64]) -> (b: Self)
        requires
            handles@.len() == 14,
        ensures
            b.spec_handles() == handles@,
    {
        let b: Self = ScratchPipelineBuffers {
            reduced: handles[0],
            reduced2: handles[1],
            reduced_scan: handles[2],
            tagmonoid: handles[3],
            path_bbox: handles[4],
            draw_reduced: handles[5],
            draw_monoid: handles[6],
            clip_inp: handles[7],
            clip_el: handles[8],
            clip_bic: handles[9],
            clip_bbox: handles[10],
            draw_bbox: handles[11],
            bin_header: handles[12],
            path: handles[13],
        };
        assert(b.spec_handles() =~= handles@);
        b
    }
}

/// A whole number of elements fits each buffer that is asked for.
pub proof fn requests_hold_whole_elements(bs: BufferSizes)
    requires
        StablePipelineBuffers::can_request(bs),
        ScratchPipelineBuffers::can_request(bs),
    ensures
        forall|i: int|
            0 <= i < StablePipelineBuffers::requests(bs).len() ==> whole_elements(
                #[trigger] StablePipelineBuffers::requests(bs)[i],
            ),
        forall|i: int|
            0 <= i < ScratchPipelineBuffers::requests(bs).len() ==> whole_elements(
                #[trigger] ScratchPipelineBuffers::requests(bs)[i],
            ),
{
    let stable = StablePipelineBuffers::requests(bs);
    let scratch = ScratchPipelineBuffers::requests(bs);
    assert(stable.len() == 7 && scratch.len() == 14);
    lemma_whole_elements(bs.bin_data, stable[0]);
    lemma_whole_elements(bs.tiles, stable[1]);
    lemma_whole_elements(bs.segments, stable[2]);
    lemma_whole_elements(bs.ptcl, stable[3]);
    lemma_whole_elements(bs.blend_spill, stable[4]);
    lemma_whole_elements(bs.lines, stable[5]);
    lemma_whole_elements(bs.seg_counts, stable[6]);
    lemma_whole_elements(bs.path_reduced, scratch[0]);
    lemma_whole_elements(bs.path_reduced2, scratch[1]);
    lemma_whole_elements(bs.path_reduced_scan, scratch[2]);
    lemma_whole_elements(bs.path_monoids, scratch[3]);
    lemma_whole_elements(bs.path_bboxes, scratch[4]);
    lemma_whole_elements(bs.draw_reduced, scratch[5]);
    lemma_whole_elements(bs.draw_monoids, scratch[6]);
    lemma_whole_elements(bs.clip_inps, scratch[7]);
    lemma_whole_elements(bs.clip_els, scratch[8]);
    lemma_whole_elements(bs.clip_bics, scratch[9]);
    lemma_whole_elements(bs.clip_bboxes, scratch[10]);
    lemma_whole_elements(bs.draw_bboxes, scratch[11]);
    lemma_whole_elements(bs.bin_headers, scratch[12]);
    lemma_whole_elements(bs.paths, scratch[13]);
}

/// The size of a buffer is a multiple of its stride.
pub open spec fn whole_elements(request: BufferRequest) -> bool {
    request.size as int % request.stride as int == 0
}

proof fn lemma_whole_elements<T: Element>(size: BufferSize<T>, request: BufferRequest)
    requires
        size.bytes() <= u32::MAX,
        T::spec_stride() > 0,
        request.stride == T::spec_stride(),
        request.size == size.bytes() as u64,
    ensures
        whole_elements(request),
{
    size.size_is_a_count();
    let n = size@;
    let k = T::spec_stride() as int;
    assert(0 <= k * n) by (nonlinear_arith)
        requires
            0 <= n,
            0 < k,
    ;
    vstd::arithmetic::div_mod::lemma_mod_multiples_basic(n, k);
    assert(k * n == n * k) by (nonlinear_arith);
}

/// Cached stable and scratch pipeline buffers from the previous frame.
#[derive(Clone, Copy, Debug)]
pub struct CachedPipeline {
    pub stable: StablePipelineBuffers,
    pub scratch: ScratchPipelineBuffers,
    pub buffer_sizes: BufferSizes,
}

/// The resources of a frame, by their handles.
pub struct PipelineResources {
    pub gradient: u64,
    pub image_atlas: u64,
    pub mask_atlas: u64,
    pub scene: SizedBuffer,
    pub config: u64,
    /// Composite indirect buffer with the counts that it was made with.
    pub indirect: Option<(WorkgroupCountsGpu, u64)>,
    pub stable: StablePipelineBuffers,
    pub scratch: ScratchPipelineBuffers,
    pub bump: SizedBuffer,
    /// Full-frame output texture. `None` when the frame is written directly to the presented image.
    pub out_image: Option<TargetTexture>,
    pub filter_layers: [TargetTexture; 4],
    pub frame_width: u32,
    pub frame_height: u32,
    /// Buffer sizes used this frame, stored for cache-key comparison next frame.
    pub buffer_sizes: BufferSizes,
    /// The value last written to `config`.
    pub config_uniform_value: ConfigUniform,
}

/// The sizes that the indirect buffer starts out with, stage by stage. The two stages whose sizes the
/// GPU writes have none.
pub open spec fn initial_shapes(counts: WorkgroupCountsGpu) -> Seq<Option<(u32, u32, u32)>> {
    Seq::new(
        N_INDIRECT_STAGES as nat,
        |i: int|
            if i == STAGE_PATH_COUNT || i == STAGE_PATH_TILING {
                None
            } else {
                Some((counts.row(i)[0], counts.row(i)[1], counts.row(i)[2]))
            },
    )
}

/// Where the indirect buffer of a frame comes from.
#[derive(Debug)]
pub enum IndirectStep {
    Reuse(u64),
    /// A new buffer with these sizes, after releasing the one that holds others.
    Acquire { released: Option<u64>, shapes: Vec<Option<(u32, u32, u32)>> },
}

fn list_shapes(counts: &WorkgroupCountsGpu) -> (shapes: Vec<Option<(u32, u32, u32)>>)
    ensures
        shapes@ == initial_shapes(*counts),
{
    let mut shapes: Vec<Option<(u32, u32, u32)>> = Vec::new();
    let mut i: usize = 0;
    while i < 20
        invariant
            i <= 20,
            shapes@ == initial_shapes(*counts).take(i as int),
        decreases 20 - i,
    {
        if i as u32 == STAGE_PATH_COUNT || i as u32 == STAGE_PATH_TILING {
            shapes.push(None);
        } else {
            let e: [u32; 4] = counts.entries[i];
            shapes.push(Some((e[0], e[1], e[2])));
        }
        assert(shapes@ =~= initial_shapes(*counts).take(i as int + 1));
        i = i + 1;
    }
    assert(initial_shapes(*counts).take(20) =~= initial_shapes(*counts));
    shapes
}

/// Reuses the indirect buffer while the counts are the same.
///
/// Stages that the host knows are initialised with the buffer; the stages that the GPU writes are
/// reserved and are written each frame by setup shaders.
pub fn alloc_or_reuse_scheme_indirect(persistent: &mut PersistentState, counts: &WorkgroupCountsGpu) -> (step:
    IndirectStep)
    ensures
        *final(persistent) == (PersistentState { cached_scheme_indirect: None, ..*old(persistent) }),
        match old(persistent).cached_scheme_indirect {
            Some((cached, handle)) => if cached.same_as(*counts) {
                step == IndirectStep::Reuse(handle)
            } else {
                step matches IndirectStep::Acquire { released, shapes } && released == Some(handle) && shapes@
                    == initial_shapes(*counts)
            },
            None => step matches IndirectStep::Acquire { released, shapes } && released is None && shapes@
                == initial_shapes(*counts),
        },
        match step {
            IndirectStep::Reuse(handle) => old(persistent).cached_scheme_indirect matches Some(cached) && cached.1
                == handle && forall|i: int| 0 <= i < 20 ==> #[trigger] cached.0.row(i) == counts.row(i),
            IndirectStep::Acquire { released, shapes } => shapes@.len() == 20 && (released is Some
                <==> old(persistent).cached_scheme_indirect is Some),
        },
{
    match persistent.cached_scheme_indirect.take() {
        Some((cached, handle)) => {
            if cached.same(counts) {
                IndirectStep::Reuse(handle)
            } else {
                IndirectStep::Acquire { released: Some(handle), shapes: list_shapes(counts) }
            }
        },
        None => IndirectStep::Acquire { released: None, shapes: list_shapes(counts) },
    }
}

/// An image claims pixels but has none.
pub open spec fn lacks_pixels(image: ImageData, data: Seq<u8>) -> bool {
    data.len() == 0 && image.width != 0 && image.height != 0
}

/// The pixels of an image as the atlas holds them, with premultiplied alpha.
///
/// An image with non-zero dimensions but no pixel data is refused.
pub fn atlas_pixels(image: &ImageData, data: &[u8]) -> (r: Result<Vec<u8>, Error>)
    ensures
        match r {
            Ok(bytes) => !lacks_pixels(*image, data@) && bytes@ == (if image.alpha_type is Alpha {
                premultiplied_bytes(data@)
            } else {
                data@
            }),
            Err(e) => lacks_pixels(*image, data@) && (e matches Error::InvalidImage { id, reason } && id == image.id
                && reason@ == no_pixels_reason()@),
        },
{
    if data.len() == 0 && image.width != 0 && image.height != 0 {
        return Err(Error::InvalidImage { id: image.id, reason: no_pixels_text() });
    }
    match image.alpha_type {
        ImageAlphaType::Alpha => Ok(premultiply_rgba8(data)),
        ImageAlphaType::AlphaPremultiplied => {
            let mut bytes: Vec<u8> = Vec::new();
            bytes.extend_from_slice(data);
            assert(bytes@ =~= data@);
            Ok(bytes)
        },
    }
}

/// Why an image without pixels is refused.
pub open spec fn no_pixels_reason() -> &'static str {
    "image has non-zero dimensions but no pixel data; it may have been registered to a different renderer or unregistered before this render was submitted"
}

fn no_pixels_text() -> (s: String)
    ensures
        s@ == no_pixels_reason()@,
{
    String::from_str(
        "image has non-zero dimensions but no pixel data; it may have been registered to a different renderer or unregistered before this render was submitted",
    )
}

/// A write into a region of a texture.
#[derive(Debug)]
pub struct RegionWrite {
    pub region: Region,
    pub bytes: Vec<u8>,
}

/// The region of the atlas that an image takes up.
pub open spec fn region_of(entry: (ImageData, u32, u32)) -> Region {
    (entry.1, entry.2, entry.0.width, entry.0.height)
}

/// The writes of the first `n` images into the atlas.
pub open spec fn writes_images(
    writes: Seq<RegionWrite>,
    images: Seq<(ImageData, u32, u32)>,
    pixels: Seq<Vec<u8>>,
    n: int,
) -> bool {
    &&& writes.len() == n
    &&& forall|i: int|
        0 <= i < n ==> {
            &&& (#[trigger] writes[i]).region == region_of(images[i])
            &&& writes[i].bytes@ == (if images[i].0.alpha_type is Alpha {
                premultiplied_bytes(pixels[i]@)
            } else {
                pixels[i]@
            })
        }
}

/// Where an atlas texture comes from.
#[derive(Clone, Copy, Debug, PartialEq, Eq)]
pub struct AtlasStep {
    /// The texture that the frame needs.
    pub texture: TextureRequest,
    /// The texture that is there already, if it has the size.
    pub reused: Option<u64>,
    /// A texture of another size, which is released.
    pub released: Option<u64>,
}

/// The cached atlas texture has the size.
pub open spec fn atlas_fits(cached: Option<AtlasTexture>, dims: (u32, u32)) -> bool {
    cached matches Some(tex) && tex.width == dims.0 && tex.height == dims.1
}

/// What is asked for an atlas of a size, which is copied from where `copy_src` is set.
pub open spec fn atlas_step(cached: Option<AtlasTexture>, dims: (u32, u32), copy_src: bool) -> AtlasStep {
    let fits = atlas_fits(cached, dims);
    let handle = match cached {
        Some(tex) => Some(tex.handle),
        None => None,
    };
    AtlasStep {
        texture: TextureRequest::sampled(dims.0, dims.1, copy_src),
        reused: if fits {
            handle
        } else {
            None
        },
        released: if fits {
            None
        } else {
            handle
        },
    }
}

/// What stays cached until the new texture is there.
pub open spec fn atlas_left(cached: Option<AtlasTexture>, dims: (u32, u32)) -> Option<AtlasTexture> {
    if atlas_fits(cached, dims) {
        cached
    } else {
        None
    }
}

/// Reuses a retained atlas texture of the same size, and lets go of one of another size.
pub fn acquire_or_reuse_retained_atlas(
    cached: &mut Option<AtlasTexture>,
    width: u32,
    height: u32,
    copy_src: bool,
) -> (step: AtlasStep)
    ensures
        step == atlas_step(*old(cached), (width, height), copy_src),
        *final(cached) == atlas_left(*old(cached), (width, height)),
{
    let texture: TextureRequest = TextureRequest {
        width,
        height,
        format: TextureFormat::Rgba8Unorm,
        kind: TextureKind::Interpolated,
        flags: TextureFlags { copy_dst: true, copy_src },
    };
    match cached.take() {
        Some(tex) => {
            if tex.width == width && tex.height == height {
                *cached = Some(tex);
                AtlasStep { texture, reused: Some(tex.handle), released: None }
            } else {
                AtlasStep { texture, reused: None, released: Some(tex.handle) }
            }
        },
        None => AtlasStep { texture, reused: None, released: None },
    }
}

/// Keeps a new atlas texture.
pub fn store_atlas(persistent: &mut PersistentState, which: AtlasCache, texture: AtlasTexture)
    ensures
        *final(persistent) == (match which {
            AtlasCache::Gradient => PersistentState { cached_gradient: Some(texture), ..*old(persistent) },
            AtlasCache::Image => PersistentState { cached_image_atlas: Some(texture), ..*old(persistent) },
            AtlasCache::Mask => PersistentState { cached_mask_atlas: Some(texture), ..*old(persistent) },
        }),
        which is Gradient ==> final(persistent).cached_gradient == Some(texture),
        which is Image ==> final(persistent).cached_image_atlas == Some(texture),
        which is Mask ==> final(persistent).cached_mask_atlas == Some(texture),
{
    match which {
        AtlasCache::Gradient => {
            persistent.cached_gradient = Some(texture);
        },
        AtlasCache::Image => {
            persistent.cached_image_atlas = Some(texture);
        },
        AtlasCache::Mask => {
            persistent.cached_mask_atlas = Some(texture);
        },
    }
}

/// Where the scene buffer of a frame comes from.
#[derive(Clone, Copy, Debug, PartialEq, Eq)]
pub enum SceneStep {
    /// The cached buffer is large enough.
    Reuse(SizedBuffer),
    /// A buffer of a larger bucket; the one that is too small goes back to the pool once the GPU is
    /// done with it.
    Acquire { bucket: u64, retired: Option<u64> },
}

/// The step suits a scene of that many bytes.
pub open spec fn scene_step_for(cached: Option<SizedBuffer>, live_bytes: int, step: SceneStep) -> bool {
    exists|bucket: int|
        #![trigger is_bucket_of(bucket, live_bytes)]
        is_bucket_of(bucket, live_bytes) && step == (match cached {
            Some(buf) => if buf.size >= bucket {
                SceneStep::Reuse(buf)
            } else {
                SceneStep::Acquire { bucket: bucket as u64, retired: Some(buf.handle) }
            },
            None => SceneStep::Acquire { bucket: bucket as u64, retired: None },
        })
}

/// Reuses the scene buffer while the scene fits it. A buffer that has to grow counts as a bucket
/// crossing.
pub fn alloc_or_reuse_scene(persistent: &mut PersistentState, live_bytes: usize) -> (step: SceneStep)
    requires
        live_bytes <= 0x8000_0000_0000_0000,
        old(persistent).scene_growth.scene_bucket_crossings < u64::MAX,
    ensures
        scene_step_for(old(persistent).cached_scene, live_bytes as int, step),
        *final(persistent) == (PersistentState {
            cached_scene: None,
            scene_growth: crate::goldy_renderer::SceneGrowthStats {
                scene_bucket_crossings: if step matches SceneStep::Acquire { retired, .. } && retired is Some {
                    (old(persistent).scene_growth.scene_bucket_crossings + 1) as u64
                } else {
                    old(persistent).scene_growth.scene_bucket_crossings
                },
                ..old(persistent).scene_growth
            },
            ..*old(persistent)
        }),
{
    let bucket: u64 = scene_size_bucket(live_bytes);
    assert(is_bucket_of(bucket as int, live_bytes as int));
    match persistent.cached_scene.take() {
        Some(buf) => {
            if buf.size >= bucket {
                SceneStep::Reuse(buf)
            } else {
                note_scene_bucket_crossing(&mut persistent.scene_growth);
                SceneStep::Acquire { bucket, retired: Some(buf.handle) }
            }
        },
        None => SceneStep::Acquire { bucket, retired: None },
    }
}

/// Keeps a sampler, which is made once.
pub fn store_sampler(persistent: &mut PersistentState, slot: SamplerSlot, handle: u64)
    ensures
        *final(persistent) == (match slot {
            SamplerSlot::LinearClamp => PersistentState { linear_clamp_sampler: Some(handle), ..*old(persistent) },
            SamplerSlot::NearestClamp => PersistentState { nearest_clamp_sampler: Some(handle), ..*old(persistent) },
        }),
        slot is LinearClamp ==> final(persistent).linear_clamp_sampler == Some(handle),
        slot is NearestClamp ==> final(persistent).nearest_clamp_sampler == Some(handle),
{
    match slot {
        SamplerSlot::LinearClamp => {
            persistent.linear_clamp_sampler = Some(handle);
        },
        SamplerSlot::NearestClamp => {
            persistent.nearest_clamp_sampler = Some(handle);
        },
    }
}

/// Where an upload declaration comes from.
#[derive(Clone, Copy, Debug, PartialEq, Eq, Structural)]
pub enum UploadStep {
    Reuse(u64),
    /// Declare an upload of that many bytes.
    Declare(u64),
}

/// Reuses the scene's upload declaration, unless the upload scheme is new or the scene outgrew it.
pub fn alloc_or_reuse_scene_deposit(
    persistent: &PersistentState,
    upload_needs_record: bool,
    live_bytes: usize,
) -> (step: UploadStep)
    requires
        live_bytes <= 0x8000_0000_0000_0000,
    ensures
        exists|bucket: int|
            #![trigger is_bucket_of(bucket, live_bytes as int)]
            is_bucket_of(bucket, live_bytes as int) && step == (match persistent.cached_scene_upload {
                Some(upload) if !upload_needs_record && upload.size >= bucket => UploadStep::Reuse(upload.handle),
                _ => UploadStep::Declare(bucket as u64),
            }),
        match step {
            UploadStep::Reuse(handle) => !upload_needs_record && (persistent.cached_scene_upload matches Some(upload)
                && upload.handle == handle && live_bytes <= upload.size),
            UploadStep::Declare(bytes) => live_bytes <= bytes && 4 <= bytes,
        },
        !upload_needs_record && live_bytes > 4 && (persistent.cached_scene_upload matches Some(upload) && 2 * live_bytes
            <= upload.size) ==> step is Reuse,
{
    let bucket: u64 = scene_size_bucket(live_bytes);
    proof {
        if live_bytes > 4 {
            crate::worker_retention::bucket_below_double(bucket as int, live_bytes as int);
        }
    }
    assert(is_bucket_of(bucket as int, live_bytes as int));
    if !upload_needs_record {
        if let Some(upload) = persistent.cached_scene_upload {
            if upload.size >= bucket {
                return UploadStep::Reuse(upload.handle);
            }
        }
    }
    UploadStep::Declare(bucket)
}

/// Reuses the uniform's upload declaration, unless the upload scheme is new.
pub fn alloc_or_reuse_config_deposit(persistent: &PersistentState, upload_needs_record: bool) -> (step: UploadStep)
    ensures
        step == (match persistent.cached_config_upload {
            Some(handle) if !upload_needs_record => UploadStep::Reuse(handle),
            _ => UploadStep::Declare(ConfigUniform::spec_stride() as u64),
        }),
        step matches UploadStep::Declare(bytes) ==> bytes == 100,
        step is Reuse <==> !upload_needs_record && persistent.cached_config_upload is Some,
{
    if !upload_needs_record {
        if let Some(handle) = persistent.cached_config_upload {
            return UploadStep::Reuse(handle);
        }
    }
    UploadStep::Declare(ConfigUniform::stride() as u64)
}

/// Reuses the upload declaration of a whole texture, unless the upload scheme is new or the
/// declaration is too small. A declaration has room for four bytes at least.
pub fn alloc_or_reuse_full_texture_deposit(
    cached: &Option<TextureUpload>,
    upload_needs_record: bool,
    width: u32,
    height: u32,
    staging_bytes: u64,
) -> (step: UploadStep)
    ensures
        step == (match *cached {
            Some(upload) if !upload_needs_record && upload.width >= width && upload.height >= height && upload.capacity
                >= max_int(staging_bytes as int, 4) => UploadStep::Reuse(upload.handle),
            _ => UploadStep::Declare(max_int(staging_bytes as int, 4) as u64),
        }),
        match step {
            UploadStep::Reuse(handle) => !upload_needs_record && (*cached matches Some(upload) && upload.handle == handle
                && staging_bytes <= upload.capacity && width <= upload.width && height <= upload.height),
            UploadStep::Declare(bytes) => staging_bytes <= bytes && 4 <= bytes && (bytes == staging_bytes || bytes == 4),
        },
{
    let need: u64 = max_u64(staging_bytes, 4);
    if !upload_needs_record {
        if let Some(upload) = *cached {
            if upload.width >= width && upload.height >= height && upload.capacity >= need {
                return UploadStep::Reuse(upload.handle);
            }
        }
    }
    UploadStep::Declare(need)
}

/// Keeps the declaration of the scene's upload.
pub fn store_scene_upload(persistent: &mut PersistentState, capacity: u64, handle: u64)
    ensures
        *final(persistent) == (PersistentState {
            cached_scene_upload: Some(SizedBuffer { size: capacity, handle }),
            ..*old(persistent)
        }),
{
    persistent.cached_scene_upload = Some(SizedBuffer { size: capacity, handle });
}

/// Keeps the declaration of the uniform's upload.
pub fn store_config_upload(persistent: &mut PersistentState, handle: u64)
    ensures
        *final(persistent) == (PersistentState { cached_config_upload: Some(handle), ..*old(persistent) }),
{
    persistent.cached_config_upload = Some(handle);
}

/// An atlas that is uploaded as a whole.
#[derive(Clone, Copy, Debug, PartialEq, Eq, Structural)]
pub enum WholeAtlas {
    Gradient,
    Mask,
}

impl WholeAtlas {
    /// The upload that is declared for the atlas.
    pub open spec fn upload_in(self, persistent: PersistentState) -> Option<TextureUpload> {
        match self {
            WholeAtlas::Gradient => persistent.cached_gradient_upload,
            WholeAtlas::Mask => persistent.cached_mask_upload,
        }
    }

    /// The upload that is declared for the atlas.
    pub fn upload(self, persistent: &PersistentState) -> (upload: Option<TextureUpload>)
        ensures
            upload == self.upload_in(*persistent),
    {
        match self {
            WholeAtlas::Gradient => persistent.cached_gradient_upload,
            WholeAtlas::Mask => persistent.cached_mask_upload,
        }
    }

    /// Keeps the declaration of an upload of the atlas.
    pub fn store_upload(self, persistent: &mut PersistentState, upload: TextureUpload)
        ensures
            *final(persistent) == (match self {
                WholeAtlas::Gradient => PersistentState { cached_gradient_upload: Some(upload), ..*old(persistent) },
                WholeAtlas::Mask => PersistentState { cached_mask_upload: Some(upload), ..*old(persistent) },
            }),
            self.upload_in(*final(persistent)) == Some(upload),
            self is Gradient ==> final(persistent).cached_gradient_upload == Some(upload),
            self is Mask ==> final(persistent).cached_mask_upload == Some(upload),
    {
        match self {
            WholeAtlas::Gradient => {
                persistent.cached_gradient_upload = Some(upload);
            },
            WholeAtlas::Mask => {
                persistent.cached_mask_upload = Some(upload);
            },
        }
    }
}

/// The first declaration for a region.
pub open spec fn declared_region(uploads: Seq<(Region, u64)>, region: Region) -> Option<u64>
    decreases uploads.len(),
{
    if uploads.len() == 0 {
        None
    } else if uploads[0].0 == region {
        Some(uploads[0].1)
    } else {
        declared_region(uploads.skip(1), region)
    }
}

/// Finds the upload declaration of a region of the image atlas, unless the upload scheme is new.
pub fn take_region_texture_deposit(
    uploads: &Vec<(Region, u64)>,
    upload_needs_record: bool,
    region: Region,
) -> (handle: Option<u64>)
    ensures
        handle == (if upload_needs_record {
            None
        } else {
            declared_region(uploads@, region)
        }),
{
    if upload_needs_record {
        return None;
    }
    let mut i: usize = 0;
    assert(uploads@.skip(0) =~= uploads@);
    while i < uploads.len()
        invariant
            i <= uploads.len(),
            !upload_needs_record,
            declared_region(uploads@, region) == declared_region(uploads@.skip(i as int), region),
        decreases uploads.len() - i,
    {
        let key: Region = uploads[i].0;
        assert(uploads@.skip(i as int)[0] == uploads@[i as int]);
        assert(uploads@.skip(i as int).skip(1) =~= uploads@.skip(i as int + 1));
        if key.0 == region.0 && key.1 == region.1 && key.2 == region.2 && key.3 == region.3 {
            return Some(uploads[i].1);
        }
        i = i + 1;
    }
    None
}

/// Keeps the declaration of a region's upload, behind those that are there.
pub fn store_region_upload(persistent: &mut PersistentState, region: Region, handle: u64)
    ensures
        final(persistent).cached_image_region_uploads@ == old(persistent).cached_image_region_uploads@.push(
            (region, handle),
        ),
        *final(persistent) == (PersistentState {
            cached_image_region_uploads: final(persistent).cached_image_region_uploads,
            ..*old(persistent)
        }),
{
    persistent.cached_image_region_uploads.push((region, handle));
}

/// A declaration that is found is one of the region, and one is found where there is one.
pub proof fn found_regions_are_declared(uploads: Seq<(Region, u64)>, region: Region)
    ensures
        match declared_region(uploads, region) {
            Some(handle) => uploads.contains((region, handle)),
            None => forall|i: int| 0 <= i < uploads.len() ==> (#[trigger] uploads[i]).0 != region,
        },
    decreases uploads.len(),
{
    if uploads.len() > 0 {
        let rest = uploads.skip(1);
        found_regions_are_declared(rest, region);
        assert(uploads.contains(uploads[0]));
        if uploads[0].0 != region {
            match declared_region(rest, region) {
                Some(handle) => {
                    let i = rest.index_of((region, handle));
                    assert(uploads[i + 1] == (region, handle));
                },
                None => {
                    assert forall|i: int| 0 <= i < uploads.len() implies (#[trigger] uploads[i]).0 != region by {
                        if i > 0 {
                            assert(rest[i - 1] == uploads[i]);
                        }
                    }
                },
            }
        }
    }
}

/// Once a region without a declaration has been given one, it is found again.
pub proof fn stored_region_is_found(uploads: Seq<(Region, u64)>, region: Region, handle: u64)
    requires
        declared_region(uploads, region) is None,
    ensures
        declared_region(uploads.push((region, handle)), region) == Some(handle),
    decreases uploads.len(),
{
    let more = uploads.push((region, handle));
    if uploads.len() > 0 {
        assert(more[0] == uploads[0]);
        stored_region_is_found(uploads.skip(1), region, handle);
        assert(more.skip(1) =~= uploads.skip(1).push((region, handle)));
    } else {
        assert(more[0] == (region, handle));
    }
}

/// Reuses the upload declaration of a region, or declares one with room for four bytes at least.
pub fn alloc_or_reuse_region_texture_deposit(
    uploads: &Vec<(Region, u64)>,
    upload_needs_record: bool,
    region: Region,
    staging_bytes: u64,
) -> (step: UploadStep)
    ensures
        step == (match declared_region(uploads@, region) {
            Some(handle) if !upload_needs_record => UploadStep::Reuse(handle),
            _ => UploadStep::Declare(max_int(staging_bytes as int, 4) as u64),
        }),
        match step {
            UploadStep::Reuse(handle) => !upload_needs_record && uploads@.contains((region, handle)),
            UploadStep::Declare(bytes) => staging_bytes <= bytes && 4 <= bytes && (bytes == staging_bytes || bytes == 4)
                && (upload_needs_record || forall|i: int| 0 <= i < uploads@.len() ==> (#[trigger] uploads@[i]).0 != region),
        },
{
    proof {
        found_regions_are_declared(uploads@, region);
    }
    match take_region_texture_deposit(uploads, upload_needs_record, region) {
        Some(handle) => UploadStep::Reuse(handle),
        None => UploadStep::Declare(max_u64(staging_bytes, 4)),
    }
}

/// The bytes of a texture as they are staged, and the size of the staging memory.
#[derive(Debug)]
pub struct StagedTexture {
    pub bytes: Vec<u8>,
    pub staging_bytes: u64,
}

/// Stages RGBA bytes in rows of the pitch that the device asks for.
pub fn stage_texture_bytes(
    bytes: &[u8],
    width: u32,
    height: u32,
    row_pitch: u32,
    tight_row_bytes: u32,
    staging_bytes: u64,
) -> (staged: StagedTexture)
    requires
        row_pitch != tight_row_bytes ==> rows_fit_memory(width, height, row_pitch),
    ensures
        staged.bytes@ == (if row_pitch == tight_row_bytes {
            bytes@
        } else {
            pitched_rows(bytes@, 4 * width, row_pitch as int, row_pitch * height, height as int)
        }),
        staged.staging_bytes == max_int(staging_bytes as int, staged.bytes@.len() as int),
        staged.bytes@.len() <= staged.staging_bytes,
        staging_bytes <= staged.staging_bytes,
        row_pitch != tight_row_bytes && 4 * width <= row_pitch ==> forall|y: int, x: int|
            #![trigger staged.bytes@[y * row_pitch + x]]
            0 <= y < height && 0 <= x < 4 * width && y * (4 * width) + 4 * width <= bytes@.len() ==> staged.bytes@[y
                * row_pitch + x] == bytes@[y * (4 * width) + x],
{
    proof {
        if 4 * width <= row_pitch {
            assert forall|y: int, x: int|
                0 <= y < height && 0 <= x < 4 * width && y * (4 * width) + 4 * width <= bytes@.len() implies (
            #[trigger] pitched_rows(bytes@, 4 * width, row_pitch as int, row_pitch * height, height as int)[y * row_pitch
                + x]) == bytes@[y * (4 * width) + x] by {
                crate::pixels::pitched_image_holds_rows(bytes@, 4 * width, row_pitch as int, height as int, y, x);
            }
        }
    }
    let rows: Vec<u8> = if row_pitch == tight_row_bytes {
        let mut copy: Vec<u8> = Vec::new();
        copy.extend_from_slice(bytes);
        assert(copy@ =~= bytes@);
        copy
    } else {
        pack_rgba_to_pitch(bytes, width, height, row_pitch)
    };
    let staging: u64 = max_u64(staging_bytes, rows.len() as u64);
    StagedTexture { bytes: rows, staging_bytes: staging }
}

/// Where the bump buffer of a frame comes from.
#[derive(Clone, Copy, Debug, PartialEq, Eq)]
pub enum BumpStep {
    Reuse(SizedBuffer),
    /// A buffer of that many bytes; one of another size goes back to the pool once the GPU is done
    /// with it.
    Acquire { size: u64, retired: Option<u64> },
}

/// Reuses the bump buffer while its size is the same. With the buffer goes the grant to read it.
pub fn alloc_or_reuse_bump(persistent: &mut PersistentState, size: u64) -> (step: BumpStep)
    ensures
        step == bump_step(old(persistent).cached_bump, size),
        *final(persistent) == (PersistentState {
            cached_bump: None,
            cached_bump_grant: if step matches BumpStep::Acquire { retired, .. } && retired is Some {
                None
            } else {
                old(persistent).cached_bump_grant
            },
            ..*old(persistent)
        }),
{
    match persistent.cached_bump.take() {
        Some(buf) => {
            if buf.size == size {
                BumpStep::Reuse(buf)
            } else {
                persistent.cached_bump_grant = None;
                BumpStep::Acquire { size, retired: Some(buf.handle) }
            }
        },
        None => BumpStep::Acquire { size, retired: None },
    }
}

/// What is asked for a bump buffer of a size.
pub open spec fn bump_step(cached: Option<SizedBuffer>, size: u64) -> BumpStep {
    match cached {
        Some(buf) => if buf.size == size {
            BumpStep::Reuse(buf)
        } else {
            BumpStep::Acquire { size, retired: Some(buf.handle) }
        },
        None => BumpStep::Acquire { size, retired: None },
    }
}

/// The range of a buffer that is cleared: the whole of it from `off` on, unless a size is given. The
/// clear is recorded once with the upload scheme.
pub fn clear_gpu_buf(upload_needs_record: bool, buffer_bytes: u64, off: u64, size: Option<u64>) -> (range: Option<
    (u64, u64),
>)
    ensures
        range == (if !upload_needs_record {
            None
        } else {
            Some(
                (
                    off,
                    match size {
                        Some(n) => n,
                        None => max_int(buffer_bytes - off, 0) as u64,
                    },
                ),
            )
        }),
        range is Some <==> upload_needs_record,
        range matches Some(r) ==> r.0 == off && (size matches Some(n) ==> r.1 == n),
        size is None && off <= buffer_bytes ==> (range matches Some(r) ==> r.0 + r.1 == buffer_bytes),
{
    if !upload_needs_record {
        return None;
    }
    let bytes: u64 = match size {
        Some(n) => n,
        None => if buffer_bytes > off {
            buffer_bytes - off
        } else {
            0
        },
    };
    Some((off, bytes))
}

/// The words of the uniform in the order in which the GPU reads them.
pub open spec fn config_words(c: ConfigUniform) -> Seq<u32> {
    seq![
        c.width_in_tiles,
        c.height_in_tiles,
        c.target_width,
        c.target_height,
        c.base_color,
        c.layout.n_draw_objects,
        c.layout.n_paths,
        c.layout.n_clips,
        c.layout.bin_data_start,
        c.layout.path_tag_base,
        c.layout.path_data_base,
        c.layout.draw_tag_base,
        c.layout.draw_data_base,
        c.layout.transform_base,
        c.layout.style_base,
        c.lines_size,
        c.binning_size,
        c.tiles_size,
        c.seg_counts_size,
        c.segments_size,
        c.blend_size,
        c.ptcl_size,
        c.tile_y_offset,
        c.flatten_thread_base,
        c.mask_active,
    ]
}

/// The bytes of the uniform as they are uploaded.
pub fn config_bytes(c: &ConfigUniform) -> (bytes: Vec<u8>)
    ensures
        holds_words(bytes@, config_words(*c)),
{
    let words: Vec<u32> = vec![
        c.width_in_tiles,
        c.height_in_tiles,
        c.target_width,
        c.target_height,
        c.base_color,
        c.layout.n_draw_objects,
        c.layout.n_paths,
        c.layout.n_clips,
        c.layout.bin_data_start,
        c.layout.path_tag_base,
        c.layout.path_data_base,
        c.layout.draw_tag_base,
        c.layout.draw_data_base,
        c.layout.transform_base,
        c.layout.style_base,
        c.lines_size,
        c.binning_size,
        c.tiles_size,
        c.seg_counts_size,
        c.segments_size,
        c.blend_size,
        c.ptcl_size,
        c.tile_y_offset,
        c.flatten_thread_base,
        c.mask_active,
    ];
    assert(words@ =~= config_words(*c));
    words_to_bytes(words.as_slice())
}

/// The words of a filter uniform in the order in which the GPU reads them.
pub open spec fn filter_words(u: FilterUniform) -> Seq<u32> {
    seq![u.width, u.height, u.edge_mode, u.pass_kind, u.std_dev, u.dx, u.dy, u.color, u.pad]
}

/// The bytes of a filter uniform as they are uploaded.
pub fn filter_bytes(u: &FilterUniform) -> (bytes: Vec<u8>)
    ensures
        holds_words(bytes@, filter_words(*u)),
        bytes@.len() == FilterUniform::spec_stride(),
{
    let words: [u32; 9] = [u.width, u.height, u.edge_mode, u.pass_kind, u.std_dev, u.dx, u.dy, u.color, u.pad];
    assert(words@ =~= filter_words(*u));
    words_to_bytes(&words)
}

/// Where the pipeline buffers of a frame come from.
#[derive(Debug)]
pub struct PipelineStep {
    /// Buffers of other sizes, which are let go.
    pub released: Option<(StablePipelineBuffers, ScratchPipelineBuffers)>,
    pub stable: BufferStep<StablePipelineBuffers>,
    pub scratch: BufferStep<ScratchPipelineBuffers>,
}

/// What the frame takes from the cache, and what it lets go.
pub open spec fn pipeline_step_for(cached: Option<CachedPipeline>, bs: BufferSizes, step: PipelineStep) -> bool {
    match cached {
        Some(c) if c.buffer_sizes@ == bs@ => {
            &&& step.released is None
            &&& step.stable == BufferStep::Reuse(c.stable)
            &&& step.scratch == BufferStep::Reuse(c.scratch)
        },
        _ => {
            &&& step.released == (match cached {
                Some(c) => Some((c.stable, c.scratch)),
                None => None,
            })
            &&& step.stable matches BufferStep::Acquire(v) && v@ == StablePipelineBuffers::requests(bs)
            &&& step.scratch matches BufferStep::Acquire(v) && v@ == ScratchPipelineBuffers::requests(bs)
        },
    }
}

/// Takes the pipeline buffers of the previous frame while the sizes are the same.
pub fn take_pipeline_buffers(persistent: &mut PersistentState, bs: &BufferSizes) -> (step: PipelineStep)
    requires
        StablePipelineBuffers::can_request(*bs),
        ScratchPipelineBuffers::can_request(*bs),
    ensures
        pipeline_step_for(old(persistent).cached_pipeline, *bs, step),
        *final(persistent) == (PersistentState { cached_pipeline: None, ..*old(persistent) }),
{
    match persistent.take_cached_pipeline() {
        Some(c) => {
            if c.buffer_sizes == *bs {
                PipelineStep {
                    released: None,
                    stable: StablePipelineBuffers::acquire(Some(c.stable), bs),
                    scratch: ScratchPipelineBuffers::acquire(Some(c.scratch), bs),
                }
            } else {
                PipelineStep {
                    released: Some((c.stable, c.scratch)),
                    stable: StablePipelineBuffers::acquire(None, bs),
                    scratch: ScratchPipelineBuffers::acquire(None, bs),
                }
            }
        },
        None => PipelineStep {
            released: None,
            stable: StablePipelineBuffers::acquire(None, bs),
            scratch: ScratchPipelineBuffers::acquire(None, bs),
        },
    }
}

/// What a frame brings along for its resources.
pub struct FrameInputs<'a> {
    pub coverage_mask: Option<&'a CoverageMask>,
    pub ramps_data: &'a [u32],
    pub ramps_width: u32,
    pub ramps_height: u32,
    pub images_width: u32,
    pub images_height: u32,
    /// The images of the atlas with their places in it.
    pub images: &'a [(ImageData, u32, u32)],
    /// The pixels of the images.
    pub pixels: &'a [Vec<u8>],
    pub out_image_format: TextureFormat,
    pub direct_present: bool,
    /// The upload scheme is new, so its copies have to be recorded.
    pub upload_needs_record: bool,
    pub gpu_progress: u64,
}

/// The resources of a frame and the bytes to upload, in the order in which they are taken.
pub struct PreparePlan {
    pub gradient: AtlasStep,
    /// The color ramps, where there are any.
    pub gradient_bytes: Option<Vec<u8>>,
    pub image_atlas: AtlasStep,
    pub image_writes: Vec<RegionWrite>,
    pub mask_atlas: AtlasStep,
    pub mask_bytes: Vec<u8>,
    pub scene: SceneStep,
    pub scene_bytes: Vec<u8>,
    /// The uniform buffer that is there already.
    pub config: Option<u64>,
    pub config_value: ConfigUniform,
    pub config_bytes: Vec<u8>,
    pub pipeline: PipelineStep,
    pub bump: BumpStep,
    pub targets: TargetStep,
    /// The render targets to make, where there are none to use again.
    pub new_targets: Option<NewTargets>,
}

/// What a frame has come to when one of its images turns out to have no pixels. The two atlases are
/// taken, filled and cached all the same, as those of a plan are; the frame then fails.
pub struct PrepareFailure {
    pub error: Error,
    pub gradient: AtlasStep,
    /// The color ramps, where there are any.
    pub gradient_bytes: Option<Vec<u8>>,
    pub image_atlas: AtlasStep,
    /// The images before the one without pixels.
    pub image_writes: Vec<RegionWrite>,
}

/// New render targets: the output image, unless the frame goes to the screen directly, and four
/// layers that filters work on.
#[derive(Clone, Copy, Debug, PartialEq, Eq)]
pub struct NewTargets {
    pub out: Option<TextureRequest>,
    pub layer: TextureRequest,
}

/// The render targets that a frame is given where none can be used again.
pub open spec fn targets_for(width: u32, height: u32, format: TextureFormat, direct_present: bool) -> NewTargets {
    NewTargets {
        out: if direct_present {
            None
        } else {
            Some(TextureRequest::target(width, height, format, TextureKind::Direct))
        },
        layer: TextureRequest::target(width, height, TextureFormat::Rgba8Unorm, TextureKind::DirectInterpolated),
    }
}

/// Asks for the render targets of a frame where none can be used again.
pub fn new_render_targets(width: u32, height: u32, format: TextureFormat, direct_present: bool) -> (targets: NewTargets)
    ensures
        targets == targets_for(width, height, format, direct_present),
{
    let flags: TextureFlags = TextureFlags { copy_dst: true, copy_src: true };
    let out: Option<TextureRequest> = if direct_present {
        None
    } else {
        Some(TextureRequest { width, height, format, kind: TextureKind::Direct, flags })
    };
    let layer: TextureRequest = TextureRequest {
        width,
        height,
        format: TextureFormat::Rgba8Unorm,
        kind: TextureKind::DirectInterpolated,
        flags,
    };
    NewTargets { out, layer }
}

/// The bytes of the scene; an empty scene is stood in for by one word of ones.
pub open spec fn padded_scene(packed: Seq<u8>) -> Seq<u8> {
    if packed.len() == 0 {
        seq![255u8, 255, 255, 255]
    } else {
        packed
    }
}

/// The uniform of a frame, which tells the shaders whether there is a coverage mask.
pub open spec fn frame_uniform(config: RenderConfig, masked: bool) -> ConfigUniform {
    ConfigUniform {
        mask_active: if masked {
            1
        } else {
            config.gpu.mask_active
        },
        ..config.gpu
    }
}

impl FrameInputs<'_> {
    /// The pixels belong to the images, and a coverage mask has the size of the frame.
    pub open spec fn wf(self, params: RenderParams) -> bool {
        &&& self.images@.len() == self.pixels@.len()
        &&& self.coverage_mask matches Some(m) ==> m.width == params.width && m.height == params.height
    }

    /// Size of the coverage mask.
    pub open spec fn mask_dims(self) -> Option<(u32, u32)> {
        match self.coverage_mask {
            Some(m) => Some((m.width, m.height)),
            None => None,
        }
    }

    /// Some image claims pixels but has none.
    pub open spec fn image_missing(self, i: int) -> bool {
        lacks_pixels(self.images@[i].0, self.pixels@[i]@)
    }

    /// The state after the gradient atlas and the image atlas have been taken.
    pub open spec fn after_atlases(self, state: PersistentState, regions: Vec<(Region, u64)>) -> PersistentState {
        PersistentState {
            cached_gradient: atlas_left(state.cached_gradient, gradient_atlas(self.ramps_width, self.ramps_height)),
            cached_image_atlas: atlas_left(
                state.cached_image_atlas,
                image_atlas(self.images@.len() as usize, self.images_width, self.images_height),
            ),
            cached_image_region_uploads: regions,
            ..state
        }
    }
}

/// Collects the writes into the image atlas, up to the first image without pixels, which is an
/// error.
pub(crate) fn collect_images(images: &[(ImageData, u32, u32)], pixels: &[Vec<u8>]) -> (r: (
    Vec<RegionWrite>,
    Option<Error>,
))
    requires
        images@.len() == pixels@.len(),
    ensures
        ({
            let n = r.0@.len();
            &&& writes_images(r.0@, images@, pixels@, n as int)
            &&& forall|i: int| 0 <= i < n ==> !lacks_pixels((#[trigger] images@[i]).0, pixels@[i]@)
            &&& match r.1 {
                None => n == images@.len(),
                Some(e) => {
                    &&& n < images@.len()
                    &&& lacks_pixels(images@[n as int].0, pixels@[n as int]@)
                    &&& e matches Error::InvalidImage { id, reason } && id == images@[n as int].0.id && reason@
                        == no_pixels_reason()@
                },
            }
        }),
{
    let mut writes: Vec<RegionWrite> = Vec::new();
    let mut i: usize = 0;
    while i < images.len()
        invariant
            i <= images.len(),
            images@.len() == pixels@.len(),
            writes@.len() == i,
            writes_images(writes@, images@, pixels@, i as int),
            forall|k: int| 0 <= k < i ==> !lacks_pixels((#[trigger] images@[k]).0, pixels@[k]@),
        decreases images.len() - i,
    {
        let entry: &(ImageData, u32, u32) = &images[i];
        match atlas_pixels(&entry.0, pixels[i].as_slice()) {
            Ok(bytes) => {
                let region: Region = (entry.1, entry.2, entry.0.width, entry.0.height);
                writes.push(RegionWrite { region, bytes });
            },
            Err(e) => {
                return (writes, Some(e));
            },
        }
        i = i + 1;
    }
    (writes, None)
}

/// The bytes of the mask atlas: one opaque white pixel stands in for a mask that is not there.
pub open spec fn mask_pixels(mask: Option<&CoverageMask>) -> Seq<u8> {
    match mask {
        Some(m) => gray_pixels(m.data@),
        None => seq![255u8, 255, 255, 255],
    }
}

pub(crate) fn mask_rgba(mask: Option<&CoverageMask>) -> (bytes: Vec<u8>)
    ensures
        bytes@ == mask_pixels(mask),
{
    match mask {
        Some(m) => expand_mask(m.data.as_slice()),
        None => {
            let white: Vec<u8> = vec![255, 255, 255, 255];
            assert(white@ =~= seq![255u8, 255, 255, 255]);
            white
        },
    }
}

/// Whether a buffer of that many elements has a size that fits into a word.
fn has_size<T: Element>(size: BufferSize<T>) -> (b: bool)
    ensures
        b == (size.bytes() <= u32::MAX),
{
    let stride: u32 = T::stride();
    let len: u32 = size.len();
    assert(stride * len <= u64::MAX) by (nonlinear_arith)
        requires
            0 <= stride <= 0xffff_ffff,
            0 <= len <= 0xffff_ffff,
    ;
    (stride as u64) * (len as u64) <= u32::MAX as u64
}

/// The buffers of a frame can be asked for.
pub open spec fn can_request_all(bs: BufferSizes) -> bool {
    &&& StablePipelineBuffers::can_request(bs)
    &&& ScratchPipelineBuffers::can_request(bs)
    &&& bs.bump_alloc.bytes() <= u32::MAX
}

/// Whether the buffers of a frame can be asked for: all of them have sizes that fit into a word.
pub fn is_requestable(bs: &BufferSizes) -> (b: bool)
    ensures
        b == can_request_all(*bs),
{
    let stable: bool = has_size(bs.bin_data) && has_size(bs.tiles) && has_size(bs.segments) && has_size(bs.ptcl)
        && has_size(bs.blend_spill) && has_size(bs.lines) && has_size(bs.seg_counts);
    let tags: bool = has_size(bs.path_reduced) && has_size(bs.path_reduced2) && has_size(bs.path_reduced_scan)
        && has_size(bs.path_monoids) && has_size(bs.path_bboxes) && has_size(bs.paths);
    let draws: bool = has_size(bs.draw_reduced) && has_size(bs.draw_monoids) && has_size(bs.draw_bboxes) && has_size(
        bs.bin_headers,
    );
    let clips: bool = has_size(bs.clip_inps) && has_size(bs.clip_els) && has_size(bs.clip_bics) && has_size(
        bs.clip_bboxes,
    );
    stable && tags && draws && clips && has_size(bs.bump_alloc)
}

impl PipelineResources {
    /// Decides where the resources of a frame come from and what is uploaded to them.
    ///
    /// What the previous frame left behind is used again where it fits. An image without pixels
    /// fails the frame after the gradient atlas and the image atlas have been taken, and after the
    /// images before it have been written.
    pub fn prepare(
        persistent: &mut PersistentState,
        inputs: &FrameInputs<'_>,
        packed: Vec<u8>,
        params: &RenderParams,
        config: &RenderConfig,
    ) -> (r: Result<PreparePlan, PrepareFailure>)
        requires
            inputs.wf(*params),
            packed@.len() <= 0x8000_0000_0000_0000,
            can_request_all(config.buffer_sizes),
            old(persistent).scene_growth.scene_bucket_crossings < u64::MAX,
        ensures
            inputs.upload_needs_record ==> final(persistent).cached_image_region_uploads@.len() == 0,
            !inputs.upload_needs_record ==> final(persistent).cached_image_region_uploads
                == old(persistent).cached_image_region_uploads,
            r matches Ok(plan) ==> plan_serves(*old(persistent), *inputs, packed@, *params, *config, plan),
            match r {
                Ok(plan) => {
                    let state = inputs.after_atlases(*old(persistent), final(persistent).cached_image_region_uploads);
                    let masks = mask_atlas(inputs.mask_dims());
                    let bump_size = config.buffer_sizes.bump_alloc.bytes() as u64;
                    &&& forall|i: int| 0 <= i < inputs.images@.len() ==> !#[trigger] inputs.image_missing(i)
                    &&& plan.gradient == atlas_step(
                        old(persistent).cached_gradient,
                        gradient_atlas(inputs.ramps_width, inputs.ramps_height),
                        false,
                    )
                    &&& match plan.gradient_bytes {
                        Some(bytes) => inputs.ramps_height != 0 && holds_words(bytes@, inputs.ramps_data@),
                        None => inputs.ramps_height == 0,
                    }
                    &&& plan.image_atlas == atlas_step(
                        old(persistent).cached_image_atlas,
                        image_atlas(inputs.images@.len() as usize, inputs.images_width, inputs.images_height),
                        true,
                    )
                    &&& writes_images(
                        plan.image_writes@,
                        inputs.images@,
                        inputs.pixels@,
                        inputs.images@.len() as int,
                    )
                    &&& plan.mask_atlas == atlas_step(old(persistent).cached_mask_atlas, masks, false)
                    &&& plan.mask_bytes@ == mask_pixels(inputs.coverage_mask)
                    &&& plan.scene_bytes@ == padded_scene(packed@)
                    &&& scene_step_for(
                        old(persistent).cached_scene,
                        padded_scene(packed@).len() as int,
                        plan.scene,
                    )
                    &&& plan.config == (match old(persistent).cached_config_uniform {
                        Some((_, handle)) => Some(handle),
                        None => None,
                    })
                    &&& plan.config_value == frame_uniform(*config, inputs.coverage_mask is Some)
                    &&& holds_words(plan.config_bytes@, config_words(plan.config_value))
                    &&& pipeline_step_for(old(persistent).cached_pipeline, config.buffer_sizes, plan.pipeline)
                    &&& plan.bump == bump_step(old(persistent).cached_bump, bump_size)
                    &&& plan.targets == old(persistent).target_step(
                        params.width,
                        params.height,
                        inputs.out_image_format,
                        inputs.direct_present,
                        inputs.gpu_progress,
                    )
                    &&& plan.new_targets == (if plan.targets is Acquire {
                        Some(
                            targets_for(params.width, params.height, inputs.out_image_format, inputs.direct_present),
                        )
                    } else {
                        None
                    })
                    &&& *final(persistent) == (PersistentState {
                        cached_mask_atlas: atlas_left(old(persistent).cached_mask_atlas, masks),
                        cached_scene: None,
                        scene_growth: final(persistent).scene_growth,
                        cached_config_uniform: None,
                        cached_pipeline: None,
                        cached_bump: None,
                        cached_bump_grant: if plan.bump matches BumpStep::Acquire { retired, .. } && retired is Some {
                            None
                        } else {
                            old(persistent).cached_bump_grant
                        },
                        cached_scheme_rt: None,
                        ..state
                    })
                    &&& final(persistent).scene_growth == (crate::goldy_renderer::SceneGrowthStats {
                        scene_bucket_crossings: if plan.scene matches SceneStep::Acquire { retired, .. }
                            && retired is Some {
                            (old(persistent).scene_growth.scene_bucket_crossings + 1) as u64
                        } else {
                            old(persistent).scene_growth.scene_bucket_crossings
                        },
                        ..old(persistent).scene_growth
                    })
                },
                Err(failure) => {
                    let k = failure.image_writes@.len() as int;
                    &&& *final(persistent) == inputs.after_atlases(
                        *old(persistent),
                        final(persistent).cached_image_region_uploads,
                    )
                    &&& failure.gradient == atlas_step(
                        old(persistent).cached_gradient,
                        gradient_atlas(inputs.ramps_width, inputs.ramps_height),
                        false,
                    )
                    &&& match failure.gradient_bytes {
                        Some(bytes) => inputs.ramps_height != 0 && holds_words(bytes@, inputs.ramps_data@),
                        None => inputs.ramps_height == 0,
                    }
                    &&& failure.image_atlas == atlas_step(
                        old(persistent).cached_image_atlas,
                        image_atlas(inputs.images@.len() as usize, inputs.images_width, inputs.images_height),
                        true,
                    )
                    &&& k < inputs.images@.len()
                    &&& inputs.image_missing(k)
                    &&& forall|i: int| 0 <= i < k ==> !#[trigger] inputs.image_missing(i)
                    &&& writes_images(failure.image_writes@, inputs.images@, inputs.pixels@, k)
                    &&& failure.error matches Error::InvalidImage { id, reason } && id == inputs.images@[k].0.id
                        && reason@ == no_pixels_reason()@
                },
            },
    {
        let mut scene_bytes: Vec<u8> = packed;
        if scene_bytes.len() == 0 {
            scene_bytes.push(255);
            scene_bytes.push(255);
            scene_bytes.push(255);
            scene_bytes.push(255);
        }
        assert(scene_bytes@ =~= padded_scene(packed@));
        let mut config_value: ConfigUniform = config.gpu;
        if inputs.coverage_mask.is_some() {
            config_value.mask_active = 1;
        }
        let (gw, gh) = normalize_gradient_atlas(inputs.ramps_width, inputs.ramps_height);
        let gradient: AtlasStep = acquire_or_reuse_retained_atlas(&mut persistent.cached_gradient, gw, gh, false);
        let gradient_bytes: Option<Vec<u8>> = if inputs.ramps_height != 0 {
            Some(words_to_bytes(inputs.ramps_data))
        } else {
            None
        };
        if inputs.upload_needs_record {
            persistent.cached_image_region_uploads = Vec::new();
        }
        let (aw, ah) = normalize_image_atlas(inputs.images.len(), inputs.images_width, inputs.images_height);
        let image_step: AtlasStep = acquire_or_reuse_retained_atlas(&mut persistent.cached_image_atlas, aw, ah, true);
        assert(inputs.images@.len() == inputs.images.len());
        let (image_writes, missing) = collect_images(inputs.images, inputs.pixels);
        if let Some(error) = missing {
            return Err(PrepareFailure { error, gradient, gradient_bytes, image_atlas: image_step, image_writes });
        }
        let mask_dims: Option<(u32, u32)> = match inputs.coverage_mask {
            Some(m) => Some((m.width, m.height)),
            None => None,
        };
        let (mw, mh) = normalize_mask_atlas(mask_dims);
        let mask_step: AtlasStep = acquire_or_reuse_retained_atlas(&mut persistent.cached_mask_atlas, mw, mh, false);
        let mask_bytes: Vec<u8> = mask_rgba(inputs.coverage_mask);
        let scene: SceneStep = alloc_or_reuse_scene(persistent, scene_bytes.len());
        let config_buffer: Option<u64> = match persistent.cached_config_uniform.take() {
            Some((_, handle)) => Some(handle),
            None => None,
        };
        // The uniform is written in every frame: a retained upload scheme has a copy of it, and every
        // upload of a scheme has to be staged each time.
        let config_data: Vec<u8> = config_bytes(&config_value);
        let pipeline: PipelineStep = take_pipeline_buffers(persistent, &config.buffer_sizes);
        let bump: BumpStep = alloc_or_reuse_bump(persistent, config.buffer_sizes.bump_alloc.size_in_bytes() as u64);
        let targets: TargetStep = persistent.take_scheme_render_targets(
            params.width,
            params.height,
            inputs.out_image_format,
            inputs.direct_present,
            inputs.gpu_progress,
        );
        let new_targets: Option<NewTargets> = match targets {
            TargetStep::Reuse(_) => None,
            TargetStep::Acquire { .. } => Some(
                new_render_targets(params.width, params.height, inputs.out_image_format, inputs.direct_present),
            ),
        };
        Ok(
            PreparePlan {
                gradient,
                gradient_bytes,
                image_atlas: image_step,
                image_writes,
                mask_atlas: mask_step,
                mask_bytes,
                scene,
                scene_bytes,
                config: config_buffer,
                config_value,
                config_bytes: config_data,
                pipeline,
                bump,
                targets,
                new_targets,
            },
        )
    }
}

} // verus!
