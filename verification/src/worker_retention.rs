//! Retained worker-scheme invalidation (no per-frame hashing).

use crate::color::PremulColor;
use crate::config::{BufferSizes, RenderConfig};
use crate::filter::{FilterPrimitive, LayerFilterEffect};
use crate::float::{float_near, near};
use crate::goldy_renderer::{PersistentState, SceneGrowthStats};
use crate::math::{is_next_power_of_two, is_power_of_two, max_int, max_u64, next_power_of_two};
use crate::resource_proxy::TextureFormat;
use crate::{AaConfig, RenderParams};
use vstd::prelude::*;

verus! {

/// Inputs that change the compute/present node graph, as opposed to per-frame payload bytes.
///
/// `scene_bucket` is included because the scene buffer is bound directly in the worker's
/// recorded dispatch nodes: if the bucket grows and the buffer is reallocated, the retained
/// worker would reference a stale handle.
///
/// `mask_atlas_width/height` are included for the same reason: `has_coverage_mask` alone
/// only detects that a mask comes or goes; a mask of another size also reallocates the
/// texture with a new handle.
#[derive(Clone, Copy, Debug)]
pub struct WorkerTopology {
    pub aa: AaConfig,
    pub robust: bool,
    pub out_format: TextureFormat,
    pub width: u32,
    pub height: u32,
    pub buffer_sizes: BufferSizes,
    pub has_coverage_mask: bool,
    pub ramps_width: u32,
    pub ramps_height: u32,
    pub images_width: u32,
    pub images_height: u32,
    pub image_count: usize,
    pub swapchain_present: bool,
    /// When true, fine/filter composites write directly to the present lease (no output image).
    pub direct_present: bool,
    /// Scene byte bucket the worker was recorded against; change = new scene buffer handle.
    pub scene_bucket: u64,
    /// Normalized mask atlas dims (1x1 when no coverage mask).
    pub mask_atlas_width: u32,
    pub mask_atlas_height: u32,
}

impl WorkerTopology {
    /// Both describe the same node graph.
    pub open spec fn same_as(self, other: WorkerTopology) -> bool {
        self.buffer_sizes@ == other.buffer_sizes@ && self == (WorkerTopology {
            buffer_sizes: self.buffer_sizes,
            ..other
        })
    }

    /// Whether both describe the same node graph.
    pub fn same(&self, other: &Self) -> (b: bool)
        ensures
            b == self.same_as(*other),
    {
        self.buffer_sizes == other.buffer_sizes && self.aa == other.aa && self.robust == other.robust && self.out_format
            == other.out_format && self.width == other.width && self.height == other.height && self.has_coverage_mask
            == other.has_coverage_mask && self.ramps_width == other.ramps_width && self.ramps_height
            == other.ramps_height && self.images_width == other.images_width && self.images_height
            == other.images_height && self.image_count == other.image_count && self.swapchain_present
            == other.swapchain_present && self.direct_present == other.direct_present && self.scene_bucket
            == other.scene_bucket && self.mask_atlas_width == other.mask_atlas_width && self.mask_atlas_height
            == other.mask_atlas_height
    }
}

/// A region of the image atlas: x, y, width and height.
pub type Region = (u32, u32, u32, u32);

/// Normalized atlas / scene dimensions shared by retention keys and prepare.
///
/// Empty atlases are represented as 1x1 so keys match the textures actually allocated.
#[derive(Debug)]
pub struct ResourceDims {
    pub scene_bucket: u64,
    pub gradient_width: u32,
    pub gradient_height: u32,
    pub image_atlas_width: u32,
    pub image_atlas_height: u32,
    pub mask_atlas_width: u32,
    pub mask_atlas_height: u32,
    pub image_count: usize,
    /// Sorted unique `(x, y, width, height)` region copy keys for the image atlas.
    pub image_regions: Vec<Region>,
    pub ramps_width: u32,
    pub ramps_height: u32,
    pub images_width: u32,
    pub images_height: u32,
    pub has_coverage_mask: bool,
}

impl Clone for ResourceDims {
    fn clone(&self) -> (d: Self)
        ensures
            d.image_regions@ == self.image_regions@,
            d == (ResourceDims { image_regions: d.image_regions, ..*self }),
    {
        ResourceDims { image_regions: copy_regions(&self.image_regions), ..*self }
    }
}

/// An empty gradient atlas counts as one of 1x1.
pub open spec fn gradient_atlas(width: u32, height: u32) -> (u32, u32) {
    if height == 0 {
        (1, 1)
    } else {
        (width, height)
    }
}

/// An image atlas without images counts as one of 1x1.
pub open spec fn image_atlas(image_count: usize, width: u32, height: u32) -> (u32, u32) {
    if image_count == 0 {
        (1, 1)
    } else {
        (width, height)
    }
}

/// Without a coverage mask, the mask atlas counts as one of 1x1.
pub open spec fn mask_atlas(coverage_mask_dims: Option<(u32, u32)>) -> (u32, u32) {
    match coverage_mask_dims {
        Some(dims) => dims,
        None => (1, 1),
    }
}

/// `ramps_height == 0` means a 1x1 gradient atlas.
pub fn normalize_gradient_atlas(width: u32, height: u32) -> (r: (u32, u32))
    ensures
        r == gradient_atlas(width, height),
{
    if height == 0 {
        (1, 1)
    } else {
        (width, height)
    }
}

/// `image_count == 0` means a 1x1 image atlas.
pub fn normalize_image_atlas(image_count: usize, width: u32, height: u32) -> (r: (u32, u32))
    ensures
        r == image_atlas(image_count, width, height),
{
    if image_count == 0 {
        (1, 1)
    } else {
        (width, height)
    }
}

/// No coverage mask means a 1x1 mask atlas.
pub fn normalize_mask_atlas(coverage_mask_dims: Option<(u32, u32)>) -> (r: (u32, u32))
    ensures
        r == mask_atlas(coverage_mask_dims),
{
    match coverage_mask_dims {
        Some(dims) => dims,
        None => (1, 1),
    }
}

/// Regions are ordered by x, then y, then width, then height.
pub open spec fn comes_before(a: Region, b: Region) -> bool {
    ||| a.0 < b.0
    ||| a.0 == b.0 && a.1 < b.1
    ||| a.0 == b.0 && a.1 == b.1 && a.2 < b.2
    ||| a.0 == b.0 && a.1 == b.1 && a.2 == b.2 && a.3 < b.3
}

/// Each region comes before those that follow it, so none is listed twice.
pub open spec fn sorted_unique(regions: Seq<Region>) -> bool {
    forall|i: int, j: int| 0 <= i < j < regions.len() ==> comes_before(#[trigger] regions[i], #[trigger] regions[j])
}

fn precedes(a: Region, b: Region) -> (r: bool)
    ensures
        r == comes_before(a, b),
{
    a.0 < b.0 || (a.0 == b.0 && (a.1 < b.1 || (a.1 == b.1 && (a.2 < b.2 || (a.2 == b.2 && a.3 < b.3)))))
}

/// Puts a region into its place, unless it is listed already.
fn insert_region(regions: &mut Vec<Region>, region: Region)
    requires
        sorted_unique(old(regions)@),
    ensures
        sorted_unique(final(regions)@),
        forall|r: Region| final(regions)@.contains(r) == (old(regions)@.contains(r) || r == region),
{
    let ghost before = regions@;
    let mut i: usize = 0;
    while i < regions.len() && precedes(regions[i], region)
        invariant
            regions@ == before,
            i <= regions.len(),
            sorted_unique(before),
            forall|k: int| 0 <= k < i ==> comes_before(#[trigger] before[k], region),
        decreases regions.len() - i,
    {
        i = i + 1;
    }
    if i < regions.len() {
        let here: Region = regions[i];
        if here.0 == region.0 && here.1 == region.1 && here.2 == region.2 && here.3 == region.3 {
            assert(before[i as int] == region);
            return ;
        }
        assert(comes_before(region, before[i as int]));
        assert forall|k: int| i <= k < before.len() implies comes_before(region, #[trigger] before[k]) by {
            if k > i {
                assert(comes_before(before[i as int], before[k]));
            }
        }
    }
    regions.insert(i, region);
    assert(regions@ == before.insert(i as int, region));
    assert forall|j: int, k: int| 0 <= j < k < regions@.len() implies comes_before(
        #[trigger] regions@[j],
        #[trigger] regions@[k],
    ) by {
        if k < i {
            assert(comes_before(before[j], before[k]));
        } else if k == i {
            assert(comes_before(before[j], region));
        } else if j < i {
            assert(comes_before(before[j], before[k - 1]));
        } else if j == i {
            assert(comes_before(region, before[k - 1]));
        } else {
            assert(comes_before(before[j - 1], before[k - 1]));
        }
    }
    assert forall|r: Region| regions@.contains(r) == (before.contains(r) || r == region) by {
        if before.contains(r) {
            let k = choose|k: int| 0 <= k < before.len() && before[k] == r;
            if k < i {
                assert(regions@[k] == r);
            } else {
                assert(regions@[k + 1] == r);
            }
        }
        if r == region {
            assert(regions@[i as int] == r);
        }
        if regions@.contains(r) {
            let k = choose|k: int| 0 <= k < regions@.len() && regions@[k] == r;
            if k < i {
                assert(before[k] == r);
            } else if k > i {
                assert(before[k - 1] == r);
            }
        }
    }
}

/// Lists the regions in order, each once.
fn sort_regions(regions: &[Region]) -> (sorted: Vec<Region>)
    ensures
        sorted_unique(sorted@),
        forall|r: Region| sorted@.contains(r) == regions@.contains(r),
{
    let mut sorted: Vec<Region> = Vec::new();
    let mut i: usize = 0;
    while i < regions.len()
        invariant
            i <= regions.len(),
            sorted_unique(sorted@),
            forall|r: Region| sorted@.contains(r) == regions@.take(i as int).contains(r),
        decreases regions.len() - i,
    {
        let ghost seen = regions@.take(i as int);
        insert_region(&mut sorted, regions[i]);
        assert(regions@.take(i as int + 1) =~= seen.push(regions@[i as int]));
        assert forall|r: Region| sorted@.contains(r) == regions@.take(i as int + 1).contains(r) by {
            vstd::seq_lib::lemma_seq_contains_after_push(seen, regions@[i as int], r);
        }
        i = i + 1;
    }
    assert(regions@.take(regions@.len() as int) =~= regions@);
    sorted
}

/// A list of regions without repetition is set by the regions that it holds.
pub proof fn sorted_regions_are_unique(a: Seq<Region>, b: Seq<Region>)
    requires
        sorted_unique(a),
        sorted_unique(b),
        forall|r: Region| a.contains(r) == b.contains(r),
    ensures
        a == b,
    decreases a.len(),
{
    if a.len() == 0 {
        if b.len() > 0 {
            assert(b.contains(b[0]));
            assert(a.contains(b[0]));
        }
        assert(a =~= b);
    } else {
        assert(a.contains(a.last()));
        assert(b.contains(a.last()));
        let j = choose|j: int| 0 <= j < b.len() && b[j] == a.last();
        assert(b.contains(b.last()));
        assert(a.contains(b.last()));
        let i = choose|i: int| 0 <= i < a.len() && a[i] == b.last();
        if j < b.len() - 1 {
            assert(comes_before(b[j], b.last()));
            if i < a.len() - 1 {
                assert(comes_before(a[i], a.last()));
            }
            assert(false);
        }
        let a0 = a.drop_last();
        let b0 = b.drop_last();
        assert forall|r: Region| a0.contains(r) == b0.contains(r) by {
            if a0.contains(r) {
                let k = choose|k: int| 0 <= k < a0.len() && a0[k] == r;
                assert(comes_before(a[k], a.last()));
                assert(a.contains(r));
                let m = choose|m: int| 0 <= m < b.len() && b[m] == r;
                assert(b0[m] == r);
            }
            if b0.contains(r) {
                let k = choose|k: int| 0 <= k < b0.len() && b0[k] == r;
                assert(comes_before(b[k], b.last()));
                assert(b.contains(r));
                let m = choose|m: int| 0 <= m < a.len() && a[m] == r;
                assert(a0[m] == r);
            }
        }
        sorted_regions_are_unique(a0, b0);
        assert(a =~= a0.push(a.last()));
        assert(b =~= b0.push(b.last()));
    }
}

/// Build normalized resource dimensions from per-frame resolve outputs.
pub fn resource_dims(
    scene_bucket: u64,
    ramps_width: u32,
    ramps_height: u32,
    image_count: usize,
    images_width: u32,
    images_height: u32,
    coverage_mask_dims: Option<(u32, u32)>,
    image_regions: &[Region],
) -> (dims: ResourceDims)
    ensures
        dims.scene_bucket == scene_bucket,
        (dims.gradient_width, dims.gradient_height) == gradient_atlas(ramps_width, ramps_height),
        (dims.image_atlas_width, dims.image_atlas_height) == image_atlas(image_count, images_width, images_height),
        (dims.mask_atlas_width, dims.mask_atlas_height) == mask_atlas(coverage_mask_dims),
        dims.image_count == image_count,
        sorted_unique(dims.image_regions@),
        forall|r: Region| dims.image_regions@.contains(r) == image_regions@.contains(r),
        dims.ramps_width == ramps_width,
        dims.ramps_height == ramps_height,
        dims.images_width == images_width,
        dims.images_height == images_height,
        dims.has_coverage_mask == (coverage_mask_dims is Some),
{
    let (gradient_width, gradient_height) = normalize_gradient_atlas(ramps_width, ramps_height);
    let (image_atlas_width, image_atlas_height) = normalize_image_atlas(image_count, images_width, images_height);
    let (mask_atlas_width, mask_atlas_height) = normalize_mask_atlas(coverage_mask_dims);
    ResourceDims {
        scene_bucket,
        gradient_width,
        gradient_height,
        image_atlas_width,
        image_atlas_height,
        mask_atlas_width,
        mask_atlas_height,
        image_count,
        image_regions: sort_regions(image_regions),
        ramps_width,
        ramps_height,
        images_width,
        images_height,
        has_coverage_mask: coverage_mask_dims.is_some(),
    }
}

/// The node graph that a frame calls for.
pub open spec fn topology_of(
    params: RenderParams,
    config: RenderConfig,
    out_format: TextureFormat,
    dims: ResourceDims,
    swapchain_present: bool,
    direct_present: bool,
) -> WorkerTopology {
    WorkerTopology {
        aa: params.antialiasing_method,
        robust: params.robust,
        out_format,
        width: params.width,
        height: params.height,
        buffer_sizes: config.buffer_sizes,
        has_coverage_mask: dims.has_coverage_mask,
        ramps_width: dims.ramps_width,
        ramps_height: dims.ramps_height,
        images_width: dims.images_width,
        images_height: dims.images_height,
        image_count: dims.image_count,
        swapchain_present,
        direct_present,
        scene_bucket: dims.scene_bucket,
        mask_atlas_width: dims.mask_atlas_width,
        mask_atlas_height: dims.mask_atlas_height,
    }
}

pub fn worker_topology(
    params: &RenderParams,
    config: &RenderConfig,
    out_format: TextureFormat,
    dims: &ResourceDims,
    swapchain_present: bool,
    direct_present: bool,
) -> (t: WorkerTopology)
    ensures
        t == topology_of(*params, *config, out_format, *dims, swapchain_present, direct_present),
{
    WorkerTopology {
        aa: params.antialiasing_method,
        robust: params.robust,
        out_format,
        width: params.width,
        height: params.height,
        buffer_sizes: config.buffer_sizes,
        has_coverage_mask: dims.has_coverage_mask,
        ramps_width: dims.ramps_width,
        ramps_height: dims.ramps_height,
        images_width: dims.images_width,
        images_height: dims.images_height,
        image_count: dims.image_count,
        swapchain_present,
        direct_present,
        scene_bucket: dims.scene_bucket,
        mask_atlas_width: dims.mask_atlas_width,
        mask_atlas_height: dims.mask_atlas_height,
    }
}

/// All resources the upload scheme writes into, keyed by the dimensions that determine
/// their GPU handle identity. A change in any field means at least one upload copy node
/// references a stale handle and the scheme must be re-recorded.
///
/// Dimensions are normalised to the actual texture sizes that are allocated (1x1 for an
/// empty atlas).
///
/// `image_regions` captures every region copy shape so retained upload topology cannot
/// silently mismatch when atlas dims stay fixed but region layout changes.
#[derive(Debug)]
pub struct UploadKey {
    pub scene_bucket: u64,
    pub gradient_width: u32,
    pub gradient_height: u32,
    pub image_atlas_width: u32,
    pub image_atlas_height: u32,
    pub mask_atlas_width: u32,
    pub mask_atlas_height: u32,
    /// Sorted unique `(x, y, width, height)` region copy keys for the image atlas.
    pub image_regions: Vec<Region>,
}

impl UploadKey {
    /// Both name the same upload targets.
    pub open spec fn same_as(self, other: UploadKey) -> bool {
        self.image_regions@ == other.image_regions@ && self == (UploadKey {
            image_regions: self.image_regions,
            ..other
        })
    }

    /// Whether both name the same upload targets.
    pub fn same(&self, other: &Self) -> (b: bool)
        ensures
            b == self.same_as(*other),
    {
        self.scene_bucket == other.scene_bucket && self.gradient_width == other.gradient_width && self.gradient_height
            == other.gradient_height && self.image_atlas_width == other.image_atlas_width && self.image_atlas_height
            == other.image_atlas_height && self.mask_atlas_width == other.mask_atlas_width && self.mask_atlas_height
            == other.mask_atlas_height && same_regions(&self.image_regions, &other.image_regions)
    }
}

impl Clone for UploadKey {
    fn clone(&self) -> (k: Self)
        ensures
            k.same_as(*self),
    {
        UploadKey { image_regions: copy_regions(&self.image_regions), ..*self }
    }
}

fn copy_regions(regions: &Vec<Region>) -> (copy: Vec<Region>)
    ensures
        copy@ == regions@,
{
    let mut copy: Vec<Region> = Vec::new();
    let mut i: usize = 0;
    while i < regions.len()
        invariant
            i <= regions.len(),
            copy@ == regions@.take(i as int),
        decreases regions.len() - i,
    {
        copy.push(regions[i]);
        assert(regions@.take(i as int + 1) =~= regions@.take(i as int).push(regions@[i as int]));
        i = i + 1;
    }
    assert(regions@.take(i as int) =~= regions@);
    copy
}

fn same_regions(a: &Vec<Region>, b: &Vec<Region>) -> (r: bool)
    ensures
        r == (a@ == b@),
{
    if a.len() != b.len() {
        return false;
    }
    let mut i: usize = 0;
    while i < a.len()
        invariant
            i <= a.len(),
            a.len() == b.len(),
            forall|k: int| 0 <= k < i ==> a@[k] == b@[k],
        decreases a.len() - i,
    {
        if a[i].0 != b[i].0 || a[i].1 != b[i].1 || a[i].2 != b[i].2 || a[i].3 != b[i].3 {
            assert(a@[i as int] != b@[i as int]);
            return false;
        }
        i = i + 1;
    }
    assert(a@ =~= b@);
    true
}

/// Build an [`UploadKey`] from normalized [`ResourceDims`].
pub fn upload_key_from(dims: &ResourceDims) -> (key: UploadKey)
    ensures
        key.scene_bucket == dims.scene_bucket,
        key.gradient_width == dims.gradient_width,
        key.gradient_height == dims.gradient_height,
        key.image_atlas_width == dims.image_atlas_width,
        key.image_atlas_height == dims.image_atlas_height,
        key.mask_atlas_width == dims.mask_atlas_width,
        key.mask_atlas_height == dims.mask_atlas_height,
        key.image_regions@ == dims.image_regions@,
{
    UploadKey {
        scene_bucket: dims.scene_bucket,
        gradient_width: dims.gradient_width,
        gradient_height: dims.gradient_height,
        image_atlas_width: dims.image_atlas_width,
        image_atlas_height: dims.image_atlas_height,
        mask_atlas_width: dims.mask_atlas_width,
        mask_atlas_height: dims.mask_atlas_height,
        image_regions: copy_regions(&dims.image_regions),
    }
}

/// GPU handles the retained worker was recorded against.
#[derive(Clone, Copy, Debug, PartialEq, Eq)]
pub struct WorkerResourceHandles {
    pub scene: u64,
    pub bump: u64,
    pub gradient: u64,
    pub image_atlas: u64,
    pub mask_atlas: u64,
    pub out_image: Option<u64>,
}

/// Retained resubmit assumes worker-bound resources keep the same GPU handles: the first of them
/// that has changed, if any has.
pub fn changed_worker_resource(recorded: &WorkerResourceHandles, current: &WorkerResourceHandles) -> (name: Option<
    &'static str,
>)
    ensures
        name == (if recorded.scene != current.scene {
            Some("scene buffer")
        } else if recorded.bump != current.bump {
            Some("bump buffer")
        } else if recorded.gradient != current.gradient {
            Some("gradient texture")
        } else if recorded.image_atlas != current.image_atlas {
            Some("image atlas")
        } else if recorded.mask_atlas != current.mask_atlas {
            Some("mask atlas")
        } else if recorded.out_image != current.out_image {
            Some("out_image")
        } else {
            None
        }),
        name is None <==> *recorded == *current,
{
    if recorded.scene != current.scene {
        Some("scene buffer")
    } else if recorded.bump != current.bump {
        Some("bump buffer")
    } else if recorded.gradient != current.gradient {
        Some("gradient texture")
    } else if recorded.image_atlas != current.image_atlas {
        Some("image atlas")
    } else if recorded.mask_atlas != current.mask_atlas {
        Some("mask atlas")
    } else if recorded.out_image != current.out_image {
        Some("out_image")
    } else {
        None
    }
}

/// The retained worker was recorded for another node graph.
pub open spec fn topology_changed(persistent: PersistentState, topology: WorkerTopology) -> bool {
    match persistent.cached_worker_topology {
        Some(cached) => !cached.same_as(topology),
        None => true,
    }
}

/// The retained worker does not fit the frame, for a reason other than its output image.
pub open spec fn worker_outdated(
    persistent: PersistentState,
    topology: WorkerTopology,
    effects: Seq<LayerFilterEffect>,
    output_texture: Option<u64>,
) -> bool {
    ||| effects.len() > 0
    ||| topology_changed(persistent, topology)
    ||| !same_effects(persistent.cached_worker_filter_effects@, effects)
    ||| persistent.cached_worker_output_texture != output_texture
}

/// The retained worker must be replaced and re-recorded.
pub open spec fn worker_is_stale(
    persistent: PersistentState,
    topology: WorkerTopology,
    effects: Seq<LayerFilterEffect>,
    out_image: Option<u64>,
    output_texture: Option<u64>,
) -> bool {
    ||| worker_outdated(persistent, topology, effects, output_texture)
    ||| !topology.direct_present && persistent.cached_worker_out_image != out_image
}

fn topology_differs(persistent: &PersistentState, topology: &WorkerTopology) -> (b: bool)
    ensures
        b == topology_changed(*persistent, *topology),
{
    match &persistent.cached_worker_topology {
        Some(cached) => !cached.same(topology),
        None => true,
    }
}

/// True when the retained worker must be replaced and re-recorded.
///
/// The topology comparison covers both graph-structure inputs (AA, resolution, ...) *and*
/// resource-identity inputs (`scene_bucket`, `mask_atlas_width/height`) that, if changed,
/// mean the worker's recorded dispatch nodes bind stale handles.
///
/// Non-empty filter effects always force a re-record: the filter passes bind per-frame
/// scratch textures that are returned to the transient pool after submit, so a retained
/// worker would resubmit textures that are gone.
pub fn worker_stale_reasons(
    persistent: &PersistentState,
    topology: &WorkerTopology,
    filter_effects: &[LayerFilterEffect],
    out_image: Option<u64>,
    output_texture: Option<u64>,
) -> (stale: bool)
    ensures
        stale == worker_is_stale(*persistent, *topology, filter_effects@, out_image, output_texture),
{
    // Filter scratches outrank retention: a scheme that bound returned textures cannot be kept.
    if filter_effects.len() > 0 {
        return true;
    }
    let out_image_mismatch: bool = if topology.direct_present {
        false
    } else {
        persistent.cached_worker_out_image != out_image
    };
    out_image_mismatch || persistent.cached_worker_output_texture != output_texture || topology_differs(
        persistent,
        topology,
    ) || !layer_filter_effects_eq(persistent.cached_worker_filter_effects.as_slice(), filter_effects)
}

/// What is known of the worker before the frame acquires its resources: a cached output image that
/// fits the frame is the one that the frame will get, and without one a new image is made.
pub open spec fn worker_will_be_stale(
    persistent: PersistentState,
    topology: WorkerTopology,
    effects: Seq<LayerFilterEffect>,
    output_texture: Option<u64>,
    width: u32,
    height: u32,
    out_format: TextureFormat,
) -> bool {
    ||| worker_outdated(persistent, topology, effects, output_texture)
    ||| !topology.direct_present && (match persistent.cached_scheme_rt {
        Some(targets) => match targets.out {
            Some(out) => !(out.width == width && out.height == height && out.format == out_format)
                || persistent.cached_worker_out_image != Some(out.handle),
            None => false,
        },
        None => true,
    })
}

/// Predict worker staleness *before* the pipeline resources are acquired.
///
/// Peeks the cached output image when dimensions still match; a cache miss means that a new
/// image will be allocated (new handle) and the worker is therefore stale.
pub fn predict_worker_stale(
    persistent: &PersistentState,
    topology: &WorkerTopology,
    filter_effects: &[LayerFilterEffect],
    output_texture: Option<u64>,
    width: u32,
    height: u32,
    out_format: TextureFormat,
) -> (stale: bool)
    ensures
        stale == worker_will_be_stale(
            *persistent,
            *topology,
            filter_effects@,
            output_texture,
            width,
            height,
            out_format,
        ),
{
    // Same rule as `worker_stale_reasons`: filter frames always re-record.
    if filter_effects.len() > 0 {
        return true;
    }
    if topology_differs(persistent, topology) {
        return true;
    }
    if !layer_filter_effects_eq(persistent.cached_worker_filter_effects.as_slice(), filter_effects) {
        return true;
    }
    if persistent.cached_worker_output_texture != output_texture {
        return true;
    }
    if topology.direct_present {
        return false;
    }
    match &persistent.cached_scheme_rt {
        Some(targets) => match &targets.out {
            Some(out) => if out.width == width && out.height == height && out.format == out_format {
                persistent.cached_worker_out_image != Some(out.handle)
            } else {
                true
            },
            None => false,
        },
        None => true,
    }
}

/// Filter frames are never retained.
pub proof fn filter_frames_are_stale(
    persistent: PersistentState,
    topology: WorkerTopology,
    effects: Seq<LayerFilterEffect>,
    out_image: Option<u64>,
    output_texture: Option<u64>,
    width: u32,
    height: u32,
    out_format: TextureFormat,
)
    requires
        effects.len() > 0,
    ensures
        worker_is_stale(persistent, topology, effects, out_image, output_texture),
        worker_will_be_stale(persistent, topology, effects, output_texture, width, height, out_format),
{
}

/// The prediction agrees with the decision after prepare: in direct-present mode always, and else
/// where the cached output image fits the frame, so that prepare hands it out again.
pub proof fn prediction_holds(
    persistent: PersistentState,
    topology: WorkerTopology,
    effects: Seq<LayerFilterEffect>,
    out_image: Option<u64>,
    output_texture: Option<u64>,
    width: u32,
    height: u32,
    out_format: TextureFormat,
)
    requires
        topology.direct_present || (persistent.cached_scheme_rt matches Some(targets) && targets.out matches Some(out)
            && out.width == width && out.height == height && out.format == out_format && out_image == Some(
            out.handle,
        )),
    ensures
        worker_will_be_stale(persistent, topology, effects, output_texture, width, height, out_format)
            == worker_is_stale(persistent, topology, effects, out_image, output_texture),
{
}

/// A frame without filters that asks for what the worker was recorded for keeps the worker.
pub proof fn unchanged_frame_keeps_worker(
    persistent: PersistentState,
    recorded: WorkerTopology,
    topology: WorkerTopology,
    out_image: Option<u64>,
    output_texture: Option<u64>,
)
    requires
        persistent.cached_worker_topology == Some(recorded),
        recorded.same_as(topology),
        persistent.cached_worker_filter_effects@.len() == 0,
        persistent.cached_worker_out_image == out_image,
        persistent.cached_worker_output_texture == output_texture,
    ensures
        !worker_is_stale(persistent, topology, seq![], out_image, output_texture),
{
}

/// A worker that was recorded for another resolution, anti-aliasing method, format, scene bucket,
/// present mode or buffer size is replaced.
pub proof fn changed_frame_replaces_worker(
    persistent: PersistentState,
    recorded: WorkerTopology,
    topology: WorkerTopology,
    effects: Seq<LayerFilterEffect>,
    out_image: Option<u64>,
    output_texture: Option<u64>,
)
    requires
        persistent.cached_worker_topology == Some(recorded),
        recorded.width != topology.width || recorded.height != topology.height || recorded.aa != topology.aa
            || recorded.out_format != topology.out_format || recorded.scene_bucket != topology.scene_bucket
            || recorded.direct_present != topology.direct_present || recorded.swapchain_present
            != topology.swapchain_present || recorded.robust != topology.robust || recorded.buffer_sizes@
            != topology.buffer_sizes@,
    ensures
        worker_is_stale(persistent, topology, effects, out_image, output_texture),
{
}

/// Packed colors agree.
pub open spec fn same_color(a: PremulColor, b: PremulColor) -> bool {
    a.packed() == b.packed()
}

/// The primitives look the same: of one kind, with the same edges and clip, distances that are near
/// to each other, and colors that agree in 8 bits per channel.
pub open spec fn same_primitive(a: FilterPrimitive, b: FilterPrimitive) -> bool {
    match (a, b) {
        (
            FilterPrimitive::Flood { color: color_a, clip_rect: rect_a },
            FilterPrimitive::Flood { color: color_b, clip_rect: rect_b },
        ) => rect_a@ == rect_b@ && same_color(color_a, color_b),
        (
            FilterPrimitive::GaussianBlur { std_dev: std_a, edge_mode: edge_a },
            FilterPrimitive::GaussianBlur { std_dev: std_b, edge_mode: edge_b },
        ) => edge_a == edge_b && near(std_a, std_b),
        (
            FilterPrimitive::DropShadow { dx: dx_a, dy: dy_a, std_dev: std_a, color: color_a, edge_mode: edge_a },
            FilterPrimitive::DropShadow { dx: dx_b, dy: dy_b, std_dev: std_b, color: color_b, edge_mode: edge_b },
        ) => edge_a == edge_b && near(dx_a, dx_b) && near(dy_a, dy_b) && near(std_a, std_b) && same_color(
            color_a,
            color_b,
        ),
        (FilterPrimitive::Offset { dx: dx_a, dy: dy_a }, FilterPrimitive::Offset { dx: dx_b, dy: dy_b }) => near(
            dx_a,
            dx_b,
        ) && near(dy_a, dy_b),
        _ => false,
    }
}

/// The effects look the same on the same layer.
pub open spec fn same_effect(a: LayerFilterEffect, b: LayerFilterEffect) -> bool {
    &&& a.layer_index == b.layer_index
    &&& a.is_nested == b.is_nested
    &&& a.layer_blend == b.layer_blend
    &&& same_primitive(a.primitive, b.primitive)
}

/// The lists hold the same effects in the same order.
pub open spec fn same_effects(a: Seq<LayerFilterEffect>, b: Seq<LayerFilterEffect>) -> bool {
    a.len() == b.len() && forall|i: int| 0 <= i < a.len() ==> same_effect(#[trigger] a[i], b[i])
}

/// Whether two lists hold the same effects in the same order.
pub fn layer_filter_effects_eq(a: &[LayerFilterEffect], b: &[LayerFilterEffect]) -> (r: bool)
    ensures
        r == same_effects(a@, b@),
{
    if a.len() != b.len() {
        return false;
    }
    let mut i: usize = 0;
    while i < a.len()
        invariant
            i <= a.len(),
            a@.len() == b@.len(),
            forall|k: int| 0 <= k < i ==> same_effect(#[trigger] a@[k], b@[k]),
        decreases a.len() - i,
    {
        let left: &LayerFilterEffect = &a[i];
        let right: &LayerFilterEffect = &b[i];
        if !(left.layer_index == right.layer_index && left.is_nested == right.is_nested && left.layer_blend
            == right.layer_blend && filter_primitive_eq(&left.primitive, &right.primitive)) {
            assert(!same_effect(a@[i as int], b@[i as int]));
            return false;
        }
        i = i + 1;
    }
    true
}

fn same_rect(a: &[u32; 4], b: &[u32; 4]) -> (r: bool)
    ensures
        r == (a@ == b@),
{
    let r: bool = a[0] == b[0] && a[1] == b[1] && a[2] == b[2] && a[3] == b[3];
    assert(r ==> a@ =~= b@);
    r
}

/// Whether two filter primitives look the same.
pub fn filter_primitive_eq(a: &FilterPrimitive, b: &FilterPrimitive) -> (r: bool)
    ensures
        r == same_primitive(*a, *b),
{
    match (a, b) {
        (
            FilterPrimitive::Flood { color: color_a, clip_rect: rect_a },
            FilterPrimitive::Flood { color: color_b, clip_rect: rect_b },
        ) => same_rect(rect_a, rect_b) && premul_color_eq(*color_a, *color_b),
        (
            FilterPrimitive::GaussianBlur { std_dev: std_a, edge_mode: edge_a },
            FilterPrimitive::GaussianBlur { std_dev: std_b, edge_mode: edge_b },
        ) => *edge_a == *edge_b && float_near(*std_a, *std_b),
        (
            FilterPrimitive::DropShadow { dx: dx_a, dy: dy_a, std_dev: std_a, color: color_a, edge_mode: edge_a },
            FilterPrimitive::DropShadow { dx: dx_b, dy: dy_b, std_dev: std_b, color: color_b, edge_mode: edge_b },
        ) => *edge_a == *edge_b && float_near(*dx_a, *dx_b) && float_near(*dy_a, *dy_b) && float_near(*std_a, *std_b)
            && premul_color_eq(*color_a, *color_b),
        (FilterPrimitive::Offset { dx: dx_a, dy: dy_a }, FilterPrimitive::Offset { dx: dx_b, dy: dy_b }) => float_near(
            *dx_a,
            *dx_b,
        ) && float_near(*dy_a, *dy_b),
        _ => false,
    }
}

fn premul_color_eq(a: PremulColor, b: PremulColor) -> (r: bool)
    ensures
        r == same_color(a, b),
{
    a.to_u32() == b.to_u32()
}

/// The upload scheme must be replaced.
pub open spec fn upload_is_stale(persistent: PersistentState, key: UploadKey) -> bool {
    match persistent.cached_upload_key {
        Some(cached) => !cached.same_as(key),
        None => true,
    }
}

/// True when the upload scheme must be replaced and its copy/upload nodes re-recorded.
///
/// The key covers every resource the upload scheme copies *into*: scene buffer, gradient
/// atlas, image atlas, and mask atlas.
pub fn upload_stale(persistent: &PersistentState, key: &UploadKey) -> (stale: bool)
    ensures
        stale == upload_is_stale(*persistent, *key),
{
    match &persistent.cached_upload_key {
        Some(cached) => !cached.same(key),
        None => true,
    }
}

/// The byte bucket of a scene: the next power of two, and at least 4.
pub open spec fn is_bucket_of(bucket: int, bytes: int) -> bool {
    is_next_power_of_two(bucket, max_int(bytes, 4))
}

/// Round `bytes` up to the next power of two (minimum 4) for stable scene buffer reuse.
///
/// The scene buffer is bound by handle in both the worker and upload schemes. Bucketing
/// prevents churn on minor scene-size fluctuations while still producing a stable handle
/// across frames that stay within the same bucket.
pub fn scene_size_bucket(bytes: usize) -> (bucket: u64)
    requires
        bytes <= 0x8000_0000_0000_0000,
    ensures
        is_bucket_of(bucket as int, bytes as int),
        bucket >= bytes,
        bucket >= 4,
        bytes > 4 ==> bucket < 2 * bytes,
{
    let live: u64 = max_u64(bytes as u64, 4);
    let bucket: u64 = next_power_of_two(live);
    proof {
        if bytes > 4 {
            lemma_bucket_below_double(bucket as int, bytes as int);
        }
    }
    bucket
}

/// A bucket has less than twice the bytes of its scene, beyond the smallest one.
pub proof fn bucket_below_double(bucket: int, bytes: int)
    requires
        is_bucket_of(bucket, bytes),
        bytes > 4,
    ensures
        bucket < 2 * bytes,
{
    lemma_bucket_below_double(bucket, bytes);
}

proof fn lemma_bucket_below_double(bucket: int, n: int)
    requires
        is_next_power_of_two(bucket, n),
        n > 1,
    ensures
        bucket < 2 * n,
{
    let k = choose|k: nat| bucket == #[trigger] vstd::arithmetic::power2::pow2(k);
    if k > 0 {
        vstd::arithmetic::power2::lemma_pow2_unfold(k);
        let half = vstd::arithmetic::power2::pow2((k - 1) as nat) as int;
        assert(is_power_of_two(half));
        if half >= n {
            assert(bucket <= half);
            vstd::arithmetic::power2::lemma_pow2_pos((k - 1) as nat);
        }
    } else {
        vstd::arithmetic::power2::lemma2_to64();
    }
}

/// A larger scene never has a smaller bucket, and a scene that fits the bucket of another one
/// has no larger bucket.
pub proof fn buckets_are_monotone(small: int, large: int, bucket_small: int, bucket_large: int)
    requires
        0 <= small <= large,
        is_bucket_of(bucket_small, small),
        is_bucket_of(bucket_large, large),
    ensures
        bucket_small <= bucket_large,
        large <= bucket_small ==> bucket_large == bucket_small,
{
}

/// Update per-frame scene growth counters.
pub fn note_scene_growth_frame(stats: &mut SceneGrowthStats, live_bytes: usize, scene_bucket: u64)
    requires
        old(stats).frames < u64::MAX,
    ensures
        *final(stats) == (SceneGrowthStats {
            frames: (old(stats).frames + 1) as u64,
            current_scene_bucket: scene_bucket,
            peak_scene_bucket: max_int(old(stats).peak_scene_bucket as int, scene_bucket as int) as u64,
            peak_live_scene_bytes: max_int(old(stats).peak_live_scene_bytes as int, live_bytes as int) as u64,
            ..*old(stats)
        }),
        final(stats).frames == old(stats).frames + 1,
        final(stats).current_scene_bucket == scene_bucket,
        scene_bucket <= final(stats).peak_scene_bucket && old(stats).peak_scene_bucket <= final(stats).peak_scene_bucket,
        live_bytes <= final(stats).peak_live_scene_bytes,
        old(stats).peak_live_scene_bytes <= final(stats).peak_live_scene_bytes,
        final(stats).peak_scene_bucket == scene_bucket || final(stats).peak_scene_bucket == old(stats).peak_scene_bucket,
{
    stats.frames = stats.frames + 1;
    stats.current_scene_bucket = scene_bucket;
    stats.peak_scene_bucket = max_u64(stats.peak_scene_bucket, scene_bucket);
    stats.peak_live_scene_bytes = max_u64(stats.peak_live_scene_bytes, live_bytes as u64);
}

/// Count a scene buffer bucket crossing (physical reallocation).
pub fn note_scene_bucket_crossing(stats: &mut SceneGrowthStats)
    requires
        old(stats).scene_bucket_crossings < u64::MAX,
    ensures
        *final(stats) == (SceneGrowthStats {
            scene_bucket_crossings: (old(stats).scene_bucket_crossings + 1) as u64,
            ..*old(stats)
        }),
{
    stats.scene_bucket_crossings = stats.scene_bucket_crossings + 1;
}

/// Count a worker topology invalidation driven by scene bucket growth.
pub fn note_worker_rerecord_scene_bucket(stats: &mut SceneGrowthStats)
    requires
        old(stats).worker_rerecord_scene_bucket < u64::MAX,
    ensures
        *final(stats) == (SceneGrowthStats {
            worker_rerecord_scene_bucket: (old(stats).worker_rerecord_scene_bucket + 1) as u64,
            ..*old(stats)
        }),
{
    stats.worker_rerecord_scene_bucket = stats.worker_rerecord_scene_bucket + 1;
}

/// Count an upload topology invalidation driven by scene bucket growth.
pub fn note_upload_rerecord_scene_bucket(stats: &mut SceneGrowthStats)
    requires
        old(stats).upload_rerecord_scene_bucket < u64::MAX,
    ensures
        *final(stats) == (SceneGrowthStats {
            upload_rerecord_scene_bucket: (old(stats).upload_rerecord_scene_bucket + 1) as u64,
            ..*old(stats)
        }),
{
    stats.upload_rerecord_scene_bucket = stats.upload_rerecord_scene_bucket + 1;
}

} // verus!
