//! The engine that turns recordings into GPU work.
//!
//! The engine keeps track of which resources of a recording stand on the GPU. For each command it says
//! what has to be acquired, takes note of what was acquired, and says what goes into the graph. Buffers
//! and textures are named by handles; shaders are given the slots of the resources that they bind.

use crate::config::BumpAllocators;
use crate::goldy_renderer::{bump_from_bytes, is_bump_of};
use crate::gpu_resources::{slot_limit_error, too_many_slots, type_at};
use crate::image::ImageData;
use crate::resource_proxy::{bind_type_to_node_access, BindType, ImageFormat, NodeAccess, ShaderId, TextureFormat};
use crate::scheme_gpu_resources::lacks_pixels;
use crate::text::{decimal, decimal_of, same_text};
use crate::Error;
use std::collections::{HashMap, HashSet};
use vstd::prelude::*;
use vstd::string::*;

verus! {

broadcast use vstd::std_specs::hash::group_hash_axioms;

/// The number of slots that a dispatch can be given.
pub const MAX_BINDLESS_SLOTS: usize = 16;

/// A buffer of a recording.
#[derive(Clone, Copy, Debug, PartialEq, Eq)]
pub struct BufferProxy {
    pub id: u64,
    pub size: u64,
    pub name: &'static str,
    /// Bytes of an element; where there is none, the name decides.
    pub element_stride: Option<u32>,
    pub buffer_flags: u32,
}

/// An image of a recording.
#[derive(Clone, Copy, Debug, PartialEq, Eq)]
pub struct ImageProxy {
    pub id: u64,
    pub width: u32,
    pub height: u32,
    pub format: ImageFormat,
}

/// What a dispatch of a recording binds.
#[derive(Clone, Copy, Debug, PartialEq, Eq)]
pub enum ResourceProxy {
    Buffer(BufferProxy),
    BufferRange { proxy: BufferProxy, offset: u64, size: u64 },
    Image(ImageProxy),
}

/// A step of a recording.
pub enum Command {
    Upload(BufferProxy, Vec<u8>),
    UploadUniform(BufferProxy, Vec<u8>),
    UploadImage(ImageProxy, Vec<u8>),
    /// Writes the pixels of an image at a place of a texture.
    WriteImage(ImageProxy, [u32; 2], ImageData, Vec<u8>),
    Download(BufferProxy),
    /// Clears from an offset on, by default to the end.
    Clear(BufferProxy, u64, Option<u64>),
    FreeBuffer(BufferProxy),
    FreeImage(ImageProxy),
    Dispatch(ShaderId, (u32, u32, u32), Vec<ResourceProxy>, Vec<u32>),
    DispatchIndirect(ShaderId, BufferProxy, u64, Vec<ResourceProxy>),
    /// Debug drawing, which leaves no trace.
    Draw,
}

/// How a buffer is accessed.
#[derive(Clone, Copy, Debug, PartialEq, Eq, Structural)]
pub enum DataAccess {
    Scattered,
    Broadcast,
}

/// How a texture is accessed.
#[derive(Clone, Copy, Debug, PartialEq, Eq, Structural)]
pub enum SpatialAccess {
    Direct,
    Interpolated,
}

/// A buffer on the GPU: either one of its own, or a view of the storage pool.
///
/// Only the former can be read back, dispatched from or written again.
#[derive(Clone, Copy, Debug, PartialEq, Eq, Structural)]
pub struct GpuBuffer {
    pub handle: u64,
    pub owned: bool,
    pub size: u64,
    pub access: DataAccess,
    pub flags: u32,
    pub index: Option<u32>,
    pub srv_index: Option<u32>,
}

/// A texture on the GPU.
#[derive(Clone, Copy, Debug, PartialEq, Eq, Structural)]
pub struct GpuTexture {
    pub handle: u64,
    pub index: Option<u32>,
}

/// What has to be acquired before a command can be recorded.
#[derive(Clone, Copy, Debug, PartialEq, Eq)]
pub enum Demand {
    Buffer { size: u64, name: &'static str, stride: u32, flags: u32 },
    /// A uniform buffer, which is written with the bytes of the command right away.
    Uniform { size: u64, name: &'static str, stride: u32 },
    /// A view of the storage pool.
    PoolView { size: u64, stride: u32 },
    /// A texture that can be copied to, and from where asked for. With an upload, the bytes of the
    /// command are written to it.
    Texture { width: u32, height: u32, format: TextureFormat, access: SpatialAccess, copy_src: bool, upload: bool },
}

/// What was acquired.
#[derive(Clone, Copy, Debug, PartialEq, Eq, Structural)]
pub struct Supply {
    pub handle: u64,
    pub size: u64,
    pub index: Option<u32>,
    pub srv_index: Option<u32>,
}

/// What was acquired for a command, up to the first failure.
pub struct Supplied {
    pub got: Vec<Supply>,
    pub failed: Option<Error>,
}

impl Supplied {
    /// Every demand was met, unless one failed.
    pub open spec fn covers(self, demands: nat) -> bool {
        match self.failed {
            None => self.got@.len() == demands,
            Some(_) => self.got@.len() < demands,
        }
    }

    /// A new buffer that is cleared to its end is at least as large as the offset.
    pub open spec fn clears_within(self, command: Command) -> bool {
        match command {
            Command::Clear(_, off, None) => self.failed is None && self.got@.len() > 0 ==> off <= self.got@[0].size,
            _ => true,
        }
    }
}

/// A step of the graph, in the order in which it is taken.
#[derive(Clone, Copy, Debug, PartialEq, Eq, Structural)]
pub enum GraphOp {
    ClearBuffer { handle: u64, view: bool, offset: u64, size: u64 },
    /// Writes the bytes of the command into a buffer.
    WriteBuffer { handle: u64 },
    /// Writes the bytes of the command into a uniform buffer at once, outside of the graph.
    WriteNow { handle: u64 },
    /// Writes the pixels of the command into a region of a texture.
    WriteRegion { handle: u64, x: u32, y: u32, width: u32, height: u32 },
    /// Hands the graph to the GPU and starts a new one.
    Submit,
}

/// A resource that a dispatch declares, for dependency tracking.
#[derive(Clone, Copy, Debug, PartialEq, Eq, Structural)]
pub enum NodeBinding {
    Buffer { handle: u64, access: NodeAccess },
    View { handle: u64, access: NodeAccess },
    Texture { handle: u64, access: NodeAccess },
}

/// A dispatch as it goes into the graph.
#[derive(Debug)]
pub struct DispatchNode {
    pub shader: usize,
    /// The buffer that holds the size, with the offset of the size in it.
    pub indirect: Option<(u64, u64)>,
    pub dims: (u32, u32, u32),
    pub bindings: Vec<NodeBinding>,
    /// The slots that the shader is given.
    pub indices: Vec<u32>,
    /// Words of the caller, which the shader is given behind the slots.
    pub push_tail: Vec<u32>,
}

/// What a command puts into the graph: some steps, and then a dispatch.
#[derive(Debug)]
pub struct Recorded {
    pub ops: Vec<GraphOp>,
    pub dispatch: Option<DispatchNode>,
}

/// Buffers of the bind map, with their names.
pub type BufferMap = Map<u64, (GpuBuffer, &'static str)>;

/// Images of the bind map, with their names.
pub type ImageMap = Map<u64, (GpuTexture, &'static str)>;

/// A recording that is under way.
pub struct Recorder {
    /// The recording goes to a swapchain frame.
    pub surface: bool,
    pub graph_empty: bool,
    pub pending_downloads: Vec<BufferProxy>,
    pub free_buffers: Vec<u64>,
    pub free_images: Vec<u64>,
    pub output_image_id: Option<u64>,
    pub dispatch_count: usize,
}

/// The engine.
pub struct GoldyEngine {
    /// How each shader binds its resources.
    pub shaders: Vec<Vec<BindType>>,
    pub bufs: HashMap<u64, (GpuBuffer, &'static str)>,
    pub images: HashMap<u64, (GpuTexture, &'static str)>,
    /// Buffers that were downloaded.
    pub downloads: HashMap<u64, Vec<u8>>,
    /// Capacity of the storage pool.
    pub storage_pool: Option<u64>,
    /// The next graph starts with a clear of the whole storage pool.
    pub pool_clear_in_next_submit: bool,
    /// GPU timeline of the previous recording, which has not been drained yet.
    pub prev_frame_timeline: Option<u64>,
    /// A recording went to a swapchain frame, which has not been presented yet.
    pub surface_frame_in_flight: bool,
    pub prev_pending_downloads: Vec<BufferProxy>,
    pub prev_deferred_free_buffers: Vec<u64>,
    pub prev_deferred_free_images: Vec<u64>,
    pub prev_output_image_id: Option<u64>,
    /// Bump allocator values that were read after the previous recording's GPU work completed.
    pub last_drained_bump: Option<BumpAllocators>,
}

/// Buffers that never come from the storage pool.
pub open spec fn pool_exempt(name: Seq<char>) -> bool {
    ||| name == "vello.bump_buf"@
    ||| name == "vello.indirect_dispatch"@
    ||| name == "vello.tile_buf"@
    ||| name == "vello.lines_buf"@
    ||| name == "vello.seg_counts_buf"@
    ||| name == "vello.segments_buf"@
    ||| name == "vello.path_buf"@
}

/// Whether a buffer never comes from the storage pool.
pub fn is_pool_exempt(name: &str) -> (b: bool)
    ensures
        b == pool_exempt(name@),
{
    same_text(name, "vello.bump_buf") || same_text(name, "vello.indirect_dispatch") || same_text(name, "vello.tile_buf")
        || same_text(name, "vello.lines_buf") || same_text(name, "vello.seg_counts_buf") || same_text(
        name,
        "vello.segments_buf",
    ) || same_text(name, "vello.path_buf")
}

/// Software adapters return wrong data through read-only descriptors, so nothing is pooled there.
pub fn use_pool(software: bool) -> (b: bool)
    ensures
        b == !software,
{
    !software
}

/// Software adapters are given read/write descriptors only.
pub fn force_uav(software: bool) -> (b: bool)
    ensures
        b == software,
{
    software
}

/// Bytes of an element of a buffer that does not say so itself.
pub open spec fn stride_of(name: Seq<char>) -> u32 {
    if name == "vello.path_buf"@ || name == "vello.clip_el_buf"@ || name == "vello.bump_buf"@ {
        32
    } else if name == "vello.segments_buf"@ || name == "vello.lines_buf"@ || name == "vello.path_bbox_buf"@ {
        24
    } else if name == "vello.tagmonoid_buf"@ || name == "vello.reduced_buf"@ || name == "vello.reduced2_buf"@ || name
        == "vello.reduced_scan_buf"@ {
        20
    } else if name == "vello.draw_monoid_buf"@ || name == "vello.draw_reduced_buf"@ || name == "vello.draw_bbox_buf"@
        || name == "vello.clip_bbox_buf"@ || name == "vello.indirect_dispatch"@ || name == "vello.indirect_count"@ {
        16
    } else if name == "vello.tile_buf"@ || name == "vello.seg_counts_buf"@ || name == "vello.bin_header_buf"@ || name
        == "vello.clip_inp_buf"@ || name == "vello.clip_bic_buf"@ {
        8
    } else if name == "vello.config"@ {
        100
    } else if name == "vello.wg_counts"@ {
        320
    } else {
        4
    }
}

/// Bytes of an element of a buffer that does not say so itself: one word where the name is not known.
pub fn element_stride_for_buffer(name: &str) -> (stride: u32)
    ensures
        stride == stride_of(name@),
{
    if same_text(name, "vello.path_buf") || same_text(name, "vello.clip_el_buf") || same_text(name, "vello.bump_buf") {
        32
    } else if same_text(name, "vello.segments_buf") || same_text(name, "vello.lines_buf") || same_text(
        name,
        "vello.path_bbox_buf",
    ) {
        24
    } else if same_text(name, "vello.tagmonoid_buf") || same_text(name, "vello.reduced_buf") || same_text(
        name,
        "vello.reduced2_buf",
    ) || same_text(name, "vello.reduced_scan_buf") {
        20
    } else if same_text(name, "vello.draw_monoid_buf") || same_text(name, "vello.draw_reduced_buf") || same_text(
        name,
        "vello.draw_bbox_buf",
    ) || same_text(name, "vello.clip_bbox_buf") || same_text(name, "vello.indirect_dispatch") || same_text(
        name,
        "vello.indirect_count",
    ) {
        16
    } else if same_text(name, "vello.tile_buf") || same_text(name, "vello.seg_counts_buf") || same_text(
        name,
        "vello.bin_header_buf",
    ) || same_text(name, "vello.clip_inp_buf") || same_text(name, "vello.clip_bic_buf") {
        8
    } else if same_text(name, "vello.config") {
        100
    } else if same_text(name, "vello.wg_counts") {
        320
    } else {
        4
    }
}

impl BufferProxy {
    /// Bytes of an element.
    pub open spec fn stride(self) -> u32 {
        match self.element_stride {
            Some(stride) => stride,
            None => stride_of(self.name@),
        }
    }

    fn find_stride(&self) -> (stride: u32)
        ensures
            stride == self.stride(),
    {
        match self.element_stride {
            Some(stride) => stride,
            None => element_stride_for_buffer(self.name),
        }
    }

    /// A buffer that a command asks for.
    pub open spec fn demand(self) -> Demand {
        Demand::Buffer { size: self.size, name: self.name, stride: self.stride(), flags: self.buffer_flags }
    }

    fn ask(&self) -> (d: Demand)
        ensures
            d == self.demand(),
    {
        Demand::Buffer { size: self.size, name: self.name, stride: self.find_stride(), flags: self.buffer_flags }
    }

    /// The buffer comes from the storage pool.
    pub open spec fn pooled(self, pool: bool) -> bool {
        pool && !pool_exempt(self.name@)
    }

    /// What is asked for where a dispatch binds the buffer.
    pub open spec fn bound_demand(self, pool: bool) -> Demand {
        if self.pooled(pool) {
            Demand::PoolView { size: self.size, stride: self.stride() }
        } else {
            self.demand()
        }
    }

    /// The buffer that was acquired.
    pub open spec fn acquired(self, supply: Supply) -> GpuBuffer {
        GpuBuffer {
            handle: supply.handle,
            owned: true,
            size: supply.size,
            access: DataAccess::Scattered,
            flags: self.buffer_flags,
            index: supply.index,
            srv_index: supply.srv_index,
        }
    }
}

/// A uniform buffer that was acquired.
pub open spec fn acquired_uniform(supply: Supply) -> GpuBuffer {
    GpuBuffer {
        handle: supply.handle,
        owned: true,
        size: supply.size,
        access: DataAccess::Broadcast,
        flags: 0,
        index: supply.index,
        srv_index: supply.srv_index,
    }
}

/// A view of the storage pool that was acquired.
pub open spec fn acquired_view(supply: Supply) -> GpuBuffer {
    GpuBuffer {
        handle: supply.handle,
        owned: false,
        size: supply.size,
        access: DataAccess::Scattered,
        flags: 0,
        index: supply.index,
        srv_index: supply.srv_index,
    }
}

fn new_buffer(supply: Supply, owned: bool, access: DataAccess, flags: u32) -> (buf: GpuBuffer)
    ensures
        buf == (GpuBuffer {
            handle: supply.handle,
            owned,
            size: supply.size,
            access,
            flags,
            index: supply.index,
            srv_index: supply.srv_index,
        }),
{
    GpuBuffer {
        handle: supply.handle,
        owned,
        size: supply.size,
        access,
        flags,
        index: supply.index,
        srv_index: supply.srv_index,
    }
}

impl ImageProxy {
    /// A texture that a command asks for.
    pub open spec fn demand(self, access: SpatialAccess, copy_src: bool, upload: bool) -> Demand {
        Demand::Texture {
            width: self.width,
            height: self.height,
            format: TextureFormat::Rgba8Unorm,
            access,
            copy_src,
            upload,
        }
    }

    fn ask(&self, access: SpatialAccess, copy_src: bool, upload: bool) -> (d: Demand)
        ensures
            d == self.demand(access, copy_src, upload),
    {
        Demand::Texture {
            width: self.width,
            height: self.height,
            format: image_format_to_goldy(self.format),
            access,
            copy_src,
            upload,
        }
    }
}

/// The texture format of an image of a recording.
pub fn image_format_to_goldy(_format: ImageFormat) -> (t: TextureFormat)
    ensures
        t == TextureFormat::Rgba8Unorm,
{
    TextureFormat::Rgba8Unorm
}

/// A texture that was acquired.
pub open spec fn acquired_texture(supply: Supply) -> GpuTexture {
    GpuTexture { handle: supply.handle, index: supply.index }
}

/// A storage image is accessed directly; any other image is sampled.
pub open spec fn image_access(bind_type: Option<BindType>) -> SpatialAccess {
    if bind_type matches Some(BindType::Image(_)) {
        SpatialAccess::Direct
    } else {
        SpatialAccess::Interpolated
    }
}


/// The ids that are on the GPU or asked for, and what is asked for.
#[verifier::ext_equal]
pub struct Want {
    pub bufs: Set<u64>,
    pub images: Set<u64>,
    pub demands: Seq<Demand>,
}

impl Want {
    /// The resource is asked for unless it is there.
    pub open spec fn then_bound(self, res: ResourceProxy, bind_type: Option<BindType>, pool: bool) -> Want {
        match res {
            ResourceProxy::Buffer(p) | ResourceProxy::BufferRange { proxy: p, .. } => if self.bufs.contains(p.id) {
                self
            } else {
                Want { bufs: self.bufs.insert(p.id), demands: self.demands.push(p.bound_demand(pool)), ..self }
            },
            ResourceProxy::Image(p) => if self.images.contains(p.id) {
                self
            } else {
                Want {
                    images: self.images.insert(p.id),
                    demands: self.demands.push(p.demand(image_access(bind_type), true, false)),
                    ..self
                }
            },
        }
    }

    /// The first `n` bindings are asked for.
    pub open spec fn then_all(
        self,
        bindings: Seq<ResourceProxy>,
        bind_types: Seq<BindType>,
        pool: bool,
        n: int,
    ) -> Want
        decreases n,
    {
        if n <= 0 {
            self
        } else {
            self.then_all(bindings, bind_types, pool, n - 1).then_bound(
                bindings[n - 1],
                type_at(bind_types, n - 1),
                pool,
            )
        }
    }
}

/// What is on the GPU, and what has been put into the graph, while the bindings of a dispatch are
/// brought there.
#[verifier::ext_equal]
pub struct Present {
    pub bufs: BufferMap,
    pub images: ImageMap,
    pub ops: Seq<GraphOp>,
    pub used: int,
}

impl Present {
    /// A resource that is not there takes what was acquired next, if there is any. A buffer of its
    /// own is cleared.
    pub open spec fn then_bound(self, res: ResourceProxy, pool: bool, got: Seq<Supply>) -> Present {
        match res {
            ResourceProxy::Buffer(p) | ResourceProxy::BufferRange { proxy: p, .. } => if self.bufs.dom().contains(p.id)
                || self.used >= got.len() {
                self
            } else if p.pooled(pool) {
                Present {
                    bufs: self.bufs.insert(p.id, (acquired_view(got[self.used]), p.name)),
                    used: self.used + 1,
                    ..self
                }
            } else {
                Present {
                    bufs: self.bufs.insert(p.id, (p.acquired(got[self.used]), p.name)),
                    ops: self.ops.push(
                        GraphOp::ClearBuffer { handle: got[self.used].handle, view: false, offset: 0, size: p.size },
                    ),
                    used: self.used + 1,
                    ..self
                }
            },
            ResourceProxy::Image(p) => if self.images.dom().contains(p.id) || self.used >= got.len() {
                self
            } else {
                Present {
                    images: self.images.insert(p.id, (acquired_texture(got[self.used]), "placeholder_image")),
                    used: self.used + 1,
                    ..self
                }
            },
        }
    }

    /// The first `n` bindings are brought to the GPU.
    pub open spec fn then_all(self, bindings: Seq<ResourceProxy>, pool: bool, got: Seq<Supply>, n: int) -> Present
        decreases n,
    {
        if n <= 0 {
            self
        } else {
            self.then_all(bindings, pool, got, n - 1).then_bound(bindings[n - 1], pool, got)
        }
    }
}

/// As long as there is enough, what is brought to the GPU is what was asked for.
proof fn lemma_wants_are_met(
    want: Want,
    present: Present,
    bindings: Seq<ResourceProxy>,
    bind_types: Seq<BindType>,
    pool: bool,
    got: Seq<Supply>,
    n: int,
)
    requires
        0 <= n <= bindings.len(),
        want.bufs == present.bufs.dom(),
        want.images == present.images.dom(),
        want.demands.len() == present.used,
        0 <= present.used,
    ensures
        ({
            let w = want.then_all(bindings, bind_types, pool, n);
            let p = present.then_all(bindings, pool, got, n);
            &&& want.demands.len() <= w.demands.len()
            &&& w.demands.len() <= got.len() ==> w.bufs == p.bufs.dom() && w.images == p.images.dom()
                && w.demands.len() == p.used
            &&& w.demands.len() > got.len() && want.demands.len() <= got.len() ==> p.used == got.len()
        }),
    decreases n,
{
    if n > 0 {
        lemma_wants_are_met(want, present, bindings, bind_types, pool, got, n - 1);
        let w = want.then_all(bindings, bind_types, pool, n - 1);
        let p = present.then_all(bindings, pool, got, n - 1);
        let w1 = w.then_bound(bindings[n - 1], type_at(bind_types, n - 1), pool);
        let p1 = p.then_bound(bindings[n - 1], pool, got);
        if w1.demands.len() <= got.len() {
            assert(w1.bufs =~= p1.bufs.dom());
            assert(w1.images =~= p1.images.dom());
        }
    }
}

impl Default for GoldyEngine {
    fn default() -> (engine: Self)
        ensures
            engine.is_new(),
    {
        GoldyEngine::new()
    }
}

impl GoldyEngine {
    /// What is there before a command.
    pub open spec fn want(self) -> Want {
        Want { bufs: self.bufs@.dom(), images: self.images@.dom(), demands: seq![] }
    }

    /// What is there before a command.
    pub open spec fn present(self) -> Present {
        Present { bufs: self.bufs@, images: self.images@, ops: seq![], used: 0 }
    }

    fn add_demands(
        &self,
        fresh_bufs: &mut HashSet<u64>,
        fresh_images: &mut HashSet<u64>,
        demands: &mut Vec<Demand>,
        bindings: &[ResourceProxy],
        bind_types: &[BindType],
    )
        ensures
            ({
                let before = Want {
                    bufs: self.bufs@.dom().union(old(fresh_bufs)@),
                    images: self.images@.dom().union(old(fresh_images)@),
                    demands: old(demands)@,
                };
                let after = before.then_all(
                    bindings@,
                    bind_types@,
                    self.storage_pool is Some,
                    bindings@.len() as int,
                );
                &&& after.bufs == self.bufs@.dom().union(final(fresh_bufs)@)
                &&& after.images == self.images@.dom().union(final(fresh_images)@)
                &&& after.demands == final(demands)@
            }),
    {
        let ghost before = Want {
            bufs: self.bufs@.dom().union(fresh_bufs@),
            images: self.images@.dom().union(fresh_images@),
            demands: demands@,
        };
        let pool: bool = self.storage_pool.is_some();
        let mut i: usize = 0;
        while i < bindings.len()
            invariant
                i <= bindings.len(),
                pool == self.storage_pool is Some,
                before.then_all(bindings@, bind_types@, pool, i as int) == (Want {
                    bufs: self.bufs@.dom().union(fresh_bufs@),
                    images: self.images@.dom().union(fresh_images@),
                    demands: demands@,
                }),
            decreases bindings.len() - i,
        {
            let ghost fb = fresh_bufs@;
            let ghost fi = fresh_images@;
            match bindings[i] {
                ResourceProxy::Buffer(p) | ResourceProxy::BufferRange { proxy: p, .. } => {
                    if !self.bufs.contains_key(&p.id) && !fresh_bufs.contains(&p.id) {
                        if pool && !is_pool_exempt(p.name) {
                            demands.push(Demand::PoolView { size: p.size, stride: p.find_stride() });
                        } else {
                            demands.push(p.ask());
                        }
                        let _ = fresh_bufs.insert(p.id);
                        assert(self.bufs@.dom().union(fresh_bufs@) =~= self.bufs@.dom().union(fb).insert(p.id));
                    }
                },
                ResourceProxy::Image(p) => {
                    if !self.images.contains_key(&p.id) && !fresh_images.contains(&p.id) {
                        let direct: bool = i < bind_types.len() && matches!(bind_types[i], BindType::Image(_));
                        let access: SpatialAccess = if direct {
                            SpatialAccess::Direct
                        } else {
                            SpatialAccess::Interpolated
                        };
                        assert(access == image_access(type_at(bind_types@, i as int)));
                        demands.push(p.ask(access, true, false));
                        let _ = fresh_images.insert(p.id);
                        assert(self.images@.dom().union(fresh_images@) =~= self.images@.dom().union(fi).insert(p.id));
                    }
                },
            }
            i = i + 1;
        }
    }
}


/// A dispatch without work groups.
pub open spec fn is_empty_grid(dims: (u32, u32, u32)) -> bool {
    dims.0 == 0 || dims.1 == 0 || dims.2 == 0
}

impl GoldyEngine {
    /// The buffer that an upload writes again: one of its own that is large enough and of the same
    /// kind.
    pub open spec fn upload_target(self, proxy: BufferProxy, len: nat) -> Option<GpuBuffer> {
        if self.bufs@.dom().contains(proxy.id) {
            let buf = self.bufs@[proxy.id].0;
            if buf.owned && buf.size >= len && buf.access == DataAccess::Scattered && buf.flags == proxy.buffer_flags {
                Some(buf)
            } else {
                None
            }
        } else {
            None
        }
    }

    fn find_upload_target(&self, proxy: &BufferProxy, len: usize) -> (buf: Option<GpuBuffer>)
        ensures
            buf == self.upload_target(*proxy, len as nat),
    {
        match self.bufs.get(&proxy.id) {
            Some(entry) => {
                let buf: GpuBuffer = entry.0;
                if buf.owned && buf.size >= len as u64 && buf.access == DataAccess::Scattered && buf.flags
                    == proxy.buffer_flags {
                    Some(buf)
                } else {
                    None
                }
            },
            None => None,
        }
    }

    /// The uniform buffer that an upload writes again: one that is large enough.
    pub open spec fn uniform_target(self, proxy: BufferProxy, len: nat) -> Option<GpuBuffer> {
        if self.bufs@.dom().contains(proxy.id) {
            let buf = self.bufs@[proxy.id].0;
            if buf.owned && buf.size >= len && buf.access == DataAccess::Broadcast {
                Some(buf)
            } else {
                None
            }
        } else {
            None
        }
    }

    fn find_uniform_target(&self, proxy: &BufferProxy, len: usize) -> (buf: Option<GpuBuffer>)
        ensures
            buf == self.uniform_target(*proxy, len as nat),
    {
        match self.bufs.get(&proxy.id) {
            Some(entry) => {
                let buf: GpuBuffer = entry.0;
                if buf.owned && buf.size >= len as u64 && buf.access == DataAccess::Broadcast {
                    Some(buf)
                } else {
                    None
                }
            },
            None => None,
        }
    }

    /// What is asked for where a dispatch is recorded.
    pub open spec fn dispatch_want(self, shader: ShaderId, bindings: Seq<ResourceProxy>) -> Want {
        self.want().then_all(
            bindings,
            self.shaders@[shader.0 as int]@,
            self.storage_pool is Some,
            bindings.len() as int,
        )
    }

    /// What is asked for where an indirect dispatch is recorded: first the buffer that holds the
    /// size, then the bindings.
    pub open spec fn indirect_want(self, shader: ShaderId, proxy: BufferProxy, bindings: Seq<ResourceProxy>) -> Want {
        self.want().then_bound(
            ResourceProxy::Buffer(proxy),
            Some(BindType::Buffer),
            self.storage_pool is Some,
        ).then_all(bindings, self.shaders@[shader.0 as int]@, self.storage_pool is Some, bindings.len() as int)
    }

    /// What has to be acquired before a command can be recorded, in order.
    pub open spec fn demands_of(self, command: Command) -> Seq<Demand> {
        match command {
            Command::Upload(proxy, bytes) => if self.upload_target(proxy, bytes@.len()) is Some {
                seq![]
            } else {
                seq![proxy.demand()]
            },
            Command::UploadUniform(proxy, bytes) => if self.uniform_target(proxy, bytes@.len()) is Some {
                seq![]
            } else {
                seq![Demand::Uniform { size: proxy.size, name: proxy.name, stride: stride_of(proxy.name@) }]
            },
            Command::UploadImage(proxy, _) => seq![proxy.demand(SpatialAccess::Interpolated, false, true)],
            Command::WriteImage(proxy, _, _, _) => if self.images@.dom().contains(proxy.id) {
                seq![]
            } else {
                seq![proxy.demand(SpatialAccess::Interpolated, true, false)]
            },
            Command::Clear(proxy, _, _) => if self.bufs@.dom().contains(proxy.id) {
                seq![]
            } else {
                seq![proxy.demand()]
            },
            Command::Dispatch(shader, dims, bindings, _) => if is_empty_grid(dims) {
                seq![]
            } else {
                self.dispatch_want(shader, bindings@).demands
            },
            Command::DispatchIndirect(shader, proxy, _, bindings) => self.indirect_want(
                shader,
                proxy,
                bindings@,
            ).demands,
            _ => seq![],
        }
    }

    /// The command names a shader that is there, and an image that it writes has pixels.
    pub open spec fn accepts(self, command: Command) -> bool {
        match command {
            Command::WriteImage(_, _, image, pixels) => !lacks_pixels(image, pixels@),
            Command::Clear(proxy, off, size) => size is None && self.bufs@.dom().contains(proxy.id) ==> off
                <= self.bufs@[proxy.id].0.size,
            Command::Dispatch(shader, dims, _, _) => is_empty_grid(dims) || shader.0 < self.shaders@.len(),
            Command::DispatchIndirect(shader, _, _, _) => shader.0 < self.shaders@.len(),
            _ => true,
        }
    }

    /// Lists what has to be acquired before a command can be recorded.
    pub fn demands(&self, command: &Command) -> (list: Vec<Demand>)
        requires
            self.accepts(*command),
        ensures
            list@ == self.demands_of(*command),
    {
        let mut list: Vec<Demand> = Vec::new();
        match command {
            Command::Upload(proxy, bytes) => {
                if self.find_upload_target(proxy, bytes.len()).is_none() {
                    list.push(proxy.ask());
                }
            },
            Command::UploadUniform(proxy, bytes) => {
                if self.find_uniform_target(proxy, bytes.len()).is_none() {
                    list.push(
                        Demand::Uniform {
                            size: proxy.size,
                            name: proxy.name,
                            stride: element_stride_for_buffer(proxy.name),
                        },
                    );
                }
            },
            Command::UploadImage(proxy, _) => {
                list.push(proxy.ask(SpatialAccess::Interpolated, false, true));
            },
            Command::WriteImage(proxy, _, _, _) => {
                if !self.images.contains_key(&proxy.id) {
                    list.push(proxy.ask(SpatialAccess::Interpolated, true, false));
                }
            },
            Command::Clear(proxy, _, _) => {
                if !self.bufs.contains_key(&proxy.id) {
                    list.push(proxy.ask());
                }
            },
            Command::Dispatch(shader, dims, bindings, _) => {
                if !(dims.0 == 0 || dims.1 == 0 || dims.2 == 0) {
                    let mut fresh_bufs: HashSet<u64> = HashSet::new();
                    let mut fresh_images: HashSet<u64> = HashSet::new();
                    assert(self.bufs@.dom().union(fresh_bufs@) =~= self.bufs@.dom());
                    assert(self.images@.dom().union(fresh_images@) =~= self.images@.dom());
                    self.add_demands(
                        &mut fresh_bufs,
                        &mut fresh_images,
                        &mut list,
                        bindings.as_slice(),
                        self.shaders[shader.0].as_slice(),
                    );
                }
            },
            Command::DispatchIndirect(shader, proxy, _, bindings) => {
                let mut fresh_bufs: HashSet<u64> = HashSet::new();
                let mut fresh_images: HashSet<u64> = HashSet::new();
                assert(self.bufs@.dom().union(fresh_bufs@) =~= self.bufs@.dom());
                assert(self.images@.dom().union(fresh_images@) =~= self.images@.dom());
                let first: [ResourceProxy; 1] = [ResourceProxy::Buffer(*proxy)];
                let first_type: [BindType; 1] = [BindType::Buffer];
                self.add_demands(&mut fresh_bufs, &mut fresh_images, &mut list, &first, &first_type);
                proof {
                    lemma_one_want(
                        self.want(),
                        first@,
                        first_type@,
                        self.storage_pool is Some,
                    );
                }
                self.add_demands(
                    &mut fresh_bufs,
                    &mut fresh_images,
                    &mut list,
                    bindings.as_slice(),
                    self.shaders[shader.0].as_slice(),
                );
            },
            Command::Download(_) | Command::FreeBuffer(_) | Command::FreeImage(_) | Command::Draw => {},
        }
        list
    }
}

proof fn lemma_one_want(want: Want, bindings: Seq<ResourceProxy>, bind_types: Seq<BindType>, pool: bool)
    requires
        bindings.len() == 1,
        bind_types.len() == 1,
    ensures
        want.then_all(bindings, bind_types, pool, 1) == want.then_bound(bindings[0], Some(bind_types[0]), pool),
{
    reveal_with_fuel(Want::then_all, 2);
}

proof fn lemma_one_present(present: Present, bindings: Seq<ResourceProxy>, pool: bool, got: Seq<Supply>)
    requires
        bindings.len() == 1,
    ensures
        present.then_all(bindings, pool, got, 1) == present.then_bound(bindings[0], pool, got),
{
    reveal_with_fuel(Present::then_all, 2);
}

impl GoldyEngine {
    /// Brings the resources of a dispatch to the GPU. Those that a shader is the first to write were
    /// never uploaded or cleared; images may be placeholders that are never uploaded.
    fn ensure_resources_materialized(
        &mut self,
        ops: &mut Vec<GraphOp>,
        used: &mut usize,
        bindings: &[ResourceProxy],
        got: &Vec<Supply>,
    )
        requires
            *old(used) <= got@.len(),
        ensures
            *final(used) <= got@.len(),
            ({
                let before = Present {
                    bufs: old(self).bufs@,
                    images: old(self).images@,
                    ops: old(ops)@,
                    used: *old(used) as int,
                };
                let pool = old(self).storage_pool is Some;
                let after = before.then_all(bindings@, pool, got@, bindings@.len() as int);
                &&& after.bufs == final(self).bufs@
                &&& after.images == final(self).images@
                &&& after.ops == final(ops)@
                &&& after.used == *final(used)
            }),
            *final(self) == (GoldyEngine { bufs: final(self).bufs, images: final(self).images, ..*old(self) }),
    {
        let ghost before = Present { bufs: self.bufs@, images: self.images@, ops: ops@, used: *used as int };
        let ghost start = *self;
        let pool: bool = self.storage_pool.is_some();
        let mut i: usize = 0;
        while i < bindings.len()
            invariant
                i <= bindings.len(),
                pool == start.storage_pool is Some,
                *used <= got@.len(),
                *self == (GoldyEngine { bufs: self.bufs, images: self.images, ..start }),
                before.then_all(bindings@, pool, got@, i as int) == (Present {
                    bufs: self.bufs@,
                    images: self.images@,
                    ops: ops@,
                    used: *used as int,
                }),
            decreases bindings.len() - i,
        {
            match bindings[i] {
                ResourceProxy::Buffer(p) | ResourceProxy::BufferRange { proxy: p, .. } => {
                    if !self.bufs.contains_key(&p.id) {
                        if *used < got.len() {
                            let supply: Supply = got[*used];
                            if pool && !is_pool_exempt(p.name) {
                                let view: GpuBuffer = new_buffer(supply, false, DataAccess::Scattered, 0);
                                let _ = self.bufs.insert(p.id, (view, p.name));
                            } else {
                                let buf: GpuBuffer = new_buffer(supply, true, DataAccess::Scattered, p.buffer_flags);
                                ops.push(
                                    GraphOp::ClearBuffer {
                                        handle: supply.handle,
                                        view: false,
                                        offset: 0,
                                        size: p.size,
                                    },
                                );
                                let _ = self.bufs.insert(p.id, (buf, p.name));
                            }
                            *used = *used + 1;
                        }
                    }
                },
                ResourceProxy::Image(p) => {
                    if !self.images.contains_key(&p.id) {
                        if *used < got.len() {
                            let supply: Supply = got[*used];
                            let texture: GpuTexture = GpuTexture { handle: supply.handle, index: supply.index };
                            let _ = self.images.insert(p.id, (texture, "placeholder_image"));
                            *used = *used + 1;
                        }
                    }
                },
            }
            i = i + 1;
        }
    }

    /// The resource is on the GPU.
    pub open spec fn has(self, res: ResourceProxy) -> bool {
        match res {
            ResourceProxy::Buffer(p) | ResourceProxy::BufferRange { proxy: p, .. } => self.bufs@.dom().contains(p.id),
            ResourceProxy::Image(p) => self.images@.dom().contains(p.id),
        }
    }
}


impl GoldyEngine {
    /// The slot that a shader is given for a resource. Buffers that are only read have a slot of
    /// their own, unless the device wants read/write slots throughout.
    pub open spec fn index_of(self, res: ResourceProxy, bind_type: Option<BindType>, all_uav: bool) -> Option<u32> {
        match res {
            ResourceProxy::Buffer(p) | ResourceProxy::BufferRange { proxy: p, .. } => if !self.bufs@.dom().contains(
                p.id,
            ) {
                None
            } else if !all_uav && bind_type == Some(BindType::BufReadOnly) {
                self.bufs@[p.id].0.srv_index
            } else {
                self.bufs@[p.id].0.index
            },
            ResourceProxy::Image(p) => if self.images@.dom().contains(p.id) {
                self.images@[p.id].0.index
            } else {
                None
            },
        }
    }

    /// Why there is no slot.
    pub open spec fn no_index_text(self, res: ResourceProxy, bind_type: Option<BindType>, all_uav: bool) -> Seq<char> {
        match res {
            ResourceProxy::Buffer(p) | ResourceProxy::BufferRange { proxy: p, .. } => if !self.bufs@.dom().contains(
                p.id,
            ) {
                "buffer not found"@
            } else if !all_uav && bind_type == Some(BindType::BufReadOnly) {
                "buffer has no SRV index"@
            } else {
                "buffer has no bindless index"@
            },
            ResourceProxy::Image(p) => if self.images@.dom().contains(p.id) {
                "image '"@ + self.images@[p.id].1@ + "' (id="@ + decimal_of(p.id as nat)
                    + ") exists but has no bindless index"@
            } else {
                "image not found in bind map (id="@ + decimal_of(p.id as nat) + ", "@ + decimal_of(p.width as nat)
                    + "x"@ + decimal_of(p.height as nat) + ")"@
            },
        }
    }

    fn find_index(&self, res: &ResourceProxy, bind_type: Option<BindType>, all_uav: bool) -> (r: Result<u32, Error>)
        ensures
            match r {
                Ok(index) => self.index_of(*res, bind_type, all_uav) == Some(index),
                Err(e) => self.index_of(*res, bind_type, all_uav) is None && (e matches Error::Shader(text) && text@
                    == self.no_index_text(*res, bind_type, all_uav)),
            },
    {
        let is_read_only: bool = !all_uav && matches!(bind_type, Some(BindType::BufReadOnly));
        match *res {
            ResourceProxy::Buffer(p) | ResourceProxy::BufferRange { proxy: p, .. } => {
                match self.bufs.get(&p.id) {
                    Some(entry) => {
                        if is_read_only {
                            match entry.0.srv_index {
                                Some(index) => Ok(index),
                                None => Err(Error::Shader(String::from_str("buffer has no SRV index"))),
                            }
                        } else {
                            match entry.0.index {
                                Some(index) => Ok(index),
                                None => Err(Error::Shader(String::from_str("buffer has no bindless index"))),
                            }
                        }
                    },
                    None => Err(Error::Shader(String::from_str("buffer not found"))),
                }
            },
            ResourceProxy::Image(p) => {
                let id: String = decimal(p.id);
                match self.images.get(&p.id) {
                    Some(entry) => match entry.0.index {
                        Some(index) => Ok(index),
                        None => {
                            let mut text: String = String::from_str("image '");
                            text.append(entry.1);
                            text.append("' (id=");
                            text.append(id.as_str());
                            text.append(") exists but has no bindless index");
                            Err(Error::Shader(text))
                        },
                    },
                    None => {
                        let width: String = decimal(p.width as u64);
                        let height: String = decimal(p.height as u64);
                        let mut text: String = String::from_str("image not found in bind map (id=");
                        text.append(id.as_str());
                        text.append(", ");
                        text.append(width.as_str());
                        text.append("x");
                        text.append(height.as_str());
                        text.append(")");
                        Err(Error::Shader(text))
                    },
                }
            },
        }
    }

    /// The slot of the resource at `i`.
    pub open spec fn index_at(
        self,
        resources: Seq<ResourceProxy>,
        bind_types: Seq<BindType>,
        all_uav: bool,
        i: int,
    ) -> Option<u32> {
        self.index_of(resources[i], type_at(bind_types, i), all_uav)
    }

    /// The slots that a dispatch is given, in the order of its bindings.
    pub open spec fn indices(
        self,
        resources: Seq<ResourceProxy>,
        bind_types: Seq<BindType>,
        all_uav: bool,
    ) -> Seq<u32> {
        Seq::new(resources.len(), |i: int| self.index_at(resources, bind_types, all_uav, i)->0)
    }

    /// Every resource has a slot, and there are not too many of them.
    pub open spec fn can_bind(self, resources: Seq<ResourceProxy>, bind_types: Seq<BindType>, all_uav: bool) -> bool {
        &&& forall|i: int|
            0 <= i < resources.len() ==> #[trigger] self.index_at(resources, bind_types, all_uav, i) is Some
        &&& resources.len() <= MAX_BINDLESS_SLOTS
    }

    /// The text of the error says why the slots cannot be given.
    pub open spec fn cannot_bind(
        self,
        resources: Seq<ResourceProxy>,
        bind_types: Seq<BindType>,
        all_uav: bool,
        text: Seq<char>,
    ) -> bool {
        ||| {
            &&& forall|i: int|
                0 <= i < resources.len() ==> #[trigger] self.index_at(resources, bind_types, all_uav, i) is Some
            &&& resources.len() > MAX_BINDLESS_SLOTS
            &&& text == too_many_slots(resources.len(), MAX_BINDLESS_SLOTS as nat)
        }
        ||| exists|k: int|
            {
                &&& 0 <= k < resources.len()
                &&& #[trigger] self.index_at(resources, bind_types, all_uav, k) is None
                &&& forall|i: int|
                    0 <= i < k ==> #[trigger] self.index_at(resources, bind_types, all_uav, i) is Some
                &&& text == self.no_index_text(resources[k], type_at(bind_types, k), all_uav)
            }
    }

    /// Builds the list of slots for a dispatch.
    ///
    /// Resources must be bound and have valid slots, and there must not be too many of them.
    pub fn collect_bindless_indices(
        &self,
        resources: &[ResourceProxy],
        bind_types: &[BindType],
        all_uav: bool,
    ) -> (r: Result<Vec<u32>, Error>)
        ensures
            match r {
                Ok(list) => self.can_bind(resources@, bind_types@, all_uav) && list@ == self.indices(
                    resources@,
                    bind_types@,
                    all_uav,
                ),
                Err(e) => e matches Error::Shader(text) && self.cannot_bind(resources@, bind_types@, all_uav, text@),
            },
    {
        let mut list: Vec<u32> = Vec::new();
        let mut i: usize = 0;
        while i < resources.len()
            invariant
                i <= resources.len(),
                forall|k: int|
                    0 <= k < i ==> #[trigger] self.index_at(resources@, bind_types@, all_uav, k) is Some,
                list@ == self.indices(resources@, bind_types@, all_uav).take(i as int),
            decreases resources.len() - i,
        {
            let bind_type: Option<BindType> = if i < bind_types.len() {
                Some(bind_types[i])
            } else {
                None
            };
            assert(bind_type == type_at(bind_types@, i as int));
            match self.find_index(&resources[i], bind_type, all_uav) {
                Ok(index) => {
                    assert(self.index_at(resources@, bind_types@, all_uav, i as int) == Some(index));
                    list.push(index);
                },
                Err(e) => {
                    assert(self.index_at(resources@, bind_types@, all_uav, i as int) is None);
                    return Err(e);
                },
            }
            i = i + 1;
            assert(list@ =~= self.indices(resources@, bind_types@, all_uav).take(i as int));
        }
        assert(list@ =~= self.indices(resources@, bind_types@, all_uav));
        if list.len() > MAX_BINDLESS_SLOTS {
            return Err(slot_limit_error(list.len(), MAX_BINDLESS_SLOTS));
        }
        Ok(list)
    }

    /// How a dispatch accesses the resource at `i`.
    pub open spec fn access_at(bind_types: Seq<BindType>, i: int) -> NodeAccess {
        if 0 <= i < bind_types.len() {
            bind_types[i].access()
        } else {
            NodeAccess::ReadWrite
        }
    }

    /// The resources that a dispatch declares, out of its first `n` bindings.
    pub open spec fn node_bindings(
        self,
        bindings: Seq<ResourceProxy>,
        bind_types: Seq<BindType>,
        n: int,
    ) -> Seq<NodeBinding>
        decreases n,
    {
        if n <= 0 {
            seq![]
        } else {
            let before = self.node_bindings(bindings, bind_types, n - 1);
            let access = Self::access_at(bind_types, n - 1);
            if !self.has(bindings[n - 1]) {
                before
            } else {
                match bindings[n - 1] {
                    ResourceProxy::Buffer(p) | ResourceProxy::BufferRange { proxy: p, .. } => {
                        let buf = self.bufs@[p.id].0;
                        if buf.owned {
                            before.push(NodeBinding::Buffer { handle: buf.handle, access })
                        } else {
                            before.push(NodeBinding::View { handle: buf.handle, access })
                        }
                    },
                    ResourceProxy::Image(p) => before.push(
                        NodeBinding::Texture { handle: self.images@[p.id].0.handle, access },
                    ),
                }
            }
        }
    }

    /// Lists the resources that a dispatch declares, with the access that its shader asks for.
    fn bind_graph_resources(&self, bindings: &[ResourceProxy], bind_types: &[BindType]) -> (list: Vec<NodeBinding>)
        ensures
            list@ == self.node_bindings(bindings@, bind_types@, bindings@.len() as int),
    {
        let mut list: Vec<NodeBinding> = Vec::new();
        let mut i: usize = 0;
        while i < bindings.len()
            invariant
                i <= bindings.len(),
                list@ == self.node_bindings(bindings@, bind_types@, i as int),
            decreases bindings.len() - i,
        {
            let access: NodeAccess = if i < bind_types.len() {
                bind_type_to_node_access(bind_types[i])
            } else {
                NodeAccess::ReadWrite
            };
            match bindings[i] {
                ResourceProxy::Buffer(p) | ResourceProxy::BufferRange { proxy: p, .. } => {
                    if let Some(entry) = self.bufs.get(&p.id) {
                        if entry.0.owned {
                            list.push(NodeBinding::Buffer { handle: entry.0.handle, access });
                        } else {
                            list.push(NodeBinding::View { handle: entry.0.handle, access });
                        }
                    }
                },
                ResourceProxy::Image(p) => {
                    if let Some(entry) = self.images.get(&p.id) {
                        list.push(NodeBinding::Texture { handle: entry.0.handle, access });
                    }
                },
            }
            i = i + 1;
        }
        list
    }

    /// A buffer has been filed, and nothing else has changed.
    pub open spec fn filed_buffer(self, next: GoldyEngine, id: u64, buf: GpuBuffer, name: &'static str) -> bool {
        &&& next.bufs@ == self.bufs@.insert(id, (buf, name))
        &&& next == (GoldyEngine { bufs: next.bufs, ..self })
    }

    /// An image has been filed, and nothing else has changed.
    pub open spec fn filed_image(self, next: GoldyEngine, id: u64, supply: Supply, name: &'static str) -> bool {
        &&& next.images@ == self.images@.insert(id, (acquired_texture(supply), name))
        &&& next == (GoldyEngine { images: next.images, ..self })
    }

    /// The bindings of a dispatch have been brought to the GPU, as far as they were acquired, and
    /// nothing else has changed.
    pub open spec fn brought(self, next: GoldyEngine, present: Present) -> bool {
        &&& next.bufs@ == present.bufs
        &&& next.images@ == present.images
        &&& next == (GoldyEngine { bufs: next.bufs, images: next.images, ..self })
    }

    /// What is there once the bindings of a dispatch have been brought to the GPU.
    pub open spec fn dispatch_present(self, bindings: Seq<ResourceProxy>, got: Seq<Supply>) -> Present {
        self.present().then_all(bindings, self.storage_pool is Some, got, bindings.len() as int)
    }

    /// What is there once the buffer that holds the size and the bindings of an indirect dispatch
    /// have been brought to the GPU.
    pub open spec fn indirect_present(
        self,
        proxy: BufferProxy,
        bindings: Seq<ResourceProxy>,
        got: Seq<Supply>,
    ) -> Present {
        let pool = self.storage_pool is Some;
        self.present().then_bound(ResourceProxy::Buffer(proxy), pool, got).then_all(
            bindings,
            pool,
            got,
            bindings.len() as int,
        )
    }

    /// The node of a dispatch.
    pub open spec fn is_node(
        self,
        node: DispatchNode,
        shader: ShaderId,
        indirect: Option<(u64, u64)>,
        dims: (u32, u32, u32),
        bindings: Seq<ResourceProxy>,
        push_tail: Seq<u32>,
        all_uav: bool,
    ) -> bool {
        let bind_types = self.shaders@[shader.0 as int]@;
        let declared = self.node_bindings(bindings, bind_types, bindings.len() as int);
        &&& node.shader == shader.0
        &&& node.indirect == indirect
        &&& node.dims == dims
        &&& node.indices@ == self.indices(bindings, bind_types, all_uav)
        &&& node.push_tail@ == push_tail
        &&& node.bindings@ == (match indirect {
            Some((handle, _)) => declared.push(NodeBinding::Buffer { handle, access: NodeAccess::Read }),
            None => declared,
        })
    }
}


/// The pixels of an image are written at a place of a texture.
pub open spec fn write_at(handle: u64, at: [u32; 2], image: ImageData) -> GraphOp {
    GraphOp::WriteRegion { handle, x: at[0], y: at[1], width: image.width, height: image.height }
}

/// The command put some steps into the graph, and no dispatch.
pub open spec fn only_ops(r: Result<Recorded, Error>, ops: Seq<GraphOp>) -> bool {
    r matches Ok(recorded) && recorded.ops@ == ops && recorded.dispatch is None
}

/// Steps that hand a graph that is not empty to the GPU.
pub open spec fn flush_ops(graph_empty: bool) -> Seq<GraphOp> {
    if graph_empty {
        seq![]
    } else {
        seq![GraphOp::Submit]
    }
}

impl GoldyEngine {
    /// The recording goes on after a command that was recorded as `r`.
    pub open spec fn recorded(
        self,
        next: GoldyEngine,
        rec: Recorder,
        rec_next: Recorder,
        command: Command,
        supplied: Supplied,
        all_uav: bool,
        r: Result<Recorded, Error>,
    ) -> bool {
        match command {
            Command::Upload(proxy, bytes) => self.recorded_upload(next, rec, rec_next, proxy, bytes@.len(), supplied, r),
            Command::UploadUniform(proxy, bytes) => self.recorded_uniform(
                next,
                rec,
                rec_next,
                proxy,
                bytes@.len(),
                supplied,
                r,
            ),
            Command::UploadImage(proxy, _) => self.recorded_image(next, rec, rec_next, proxy, supplied, r),
            Command::WriteImage(proxy, at, image, _) => self.recorded_write(
                next,
                rec,
                rec_next,
                proxy,
                at,
                image,
                supplied,
                r,
            ),
            Command::Download(proxy) => {
                &&& next == self
                &&& rec_next.pending_downloads@ == rec.pending_downloads@.push(proxy)
                &&& rec_next == (Recorder { pending_downloads: rec_next.pending_downloads, ..rec })
                &&& only_ops(r, seq![])
            },
            Command::Clear(proxy, off, size) => self.recorded_clear(next, rec, rec_next, proxy, off, size, supplied, r),
            Command::FreeBuffer(proxy) => {
                &&& next == self
                &&& rec_next.free_buffers@ == rec.free_buffers@.push(proxy.id)
                &&& rec_next == (Recorder { free_buffers: rec_next.free_buffers, ..rec })
                &&& only_ops(r, seq![])
            },
            Command::FreeImage(proxy) => {
                &&& next == self
                &&& rec_next.free_images@ == rec.free_images@.push(proxy.id)
                &&& rec_next == (Recorder { free_images: rec_next.free_images, ..rec })
                &&& only_ops(r, seq![])
            },
            Command::Dispatch(shader, dims, bindings, push_tail) => if is_empty_grid(dims) {
                next == self && rec_next == rec && only_ops(r, seq![])
            } else {
                self.recorded_dispatch(
                    next,
                    rec,
                    rec_next,
                    shader,
                    dims,
                    bindings@,
                    push_tail@,
                    supplied,
                    all_uav,
                    r,
                )
            },
            Command::DispatchIndirect(shader, proxy, offset, bindings) => self.recorded_indirect(
                next,
                rec,
                rec_next,
                shader,
                proxy,
                offset,
                bindings@,
                supplied,
                all_uav,
                r,
            ),
            Command::Draw => next == self && rec_next == rec && only_ops(r, seq![]),
        }
    }

    /// Nothing changes, and the failure is reported.
    pub open spec fn failed(
        self,
        next: GoldyEngine,
        rec: Recorder,
        rec_next: Recorder,
        e: Error,
        r: Result<Recorded, Error>,
    ) -> bool {
        next == self && rec_next == rec && r == Err::<Recorded, Error>(e)
    }

    /// An upload writes the buffer that is there, or a new one.
    pub open spec fn recorded_upload(
        self,
        next: GoldyEngine,
        rec: Recorder,
        rec_next: Recorder,
        proxy: BufferProxy,
        len: nat,
        supplied: Supplied,
        r: Result<Recorded, Error>,
    ) -> bool {
        match self.upload_target(proxy, len) {
            Some(buf) => {
                &&& next == self
                &&& rec_next == (Recorder { graph_empty: false, ..rec })
                &&& only_ops(r, seq![GraphOp::WriteBuffer { handle: buf.handle }])
            },
            None => match supplied.failed {
                Some(e) => self.failed(next, rec, rec_next, e, r),
                None => {
                    &&& self.filed_buffer(next, proxy.id, proxy.acquired(supplied.got@[0]), proxy.name)
                    &&& rec_next == (Recorder { graph_empty: false, ..rec })
                    &&& only_ops(r, seq![GraphOp::WriteBuffer { handle: supplied.got@[0].handle }])
                },
            },
        }
    }

    fn record_upload(&mut self, recorder: &mut Recorder, proxy: &BufferProxy, len: usize, supplied: Supplied) -> (r:
        Result<Recorded, Error>)
        requires
            old(self).upload_target(*proxy, len as nat) is None ==> supplied.covers(1),
        ensures
            old(self).recorded_upload(*final(self), *old(recorder), *final(recorder), *proxy, len as nat, supplied, r),
    {
        let mut ops: Vec<GraphOp> = Vec::new();
        match self.find_upload_target(proxy, len) {
            Some(buf) => {
                ops.push(GraphOp::WriteBuffer { handle: buf.handle });
            },
            None => {
                if let Some(e) = supplied.failed {
                    return Err(e);
                }
                let supply: Supply = supplied.got[0];
                let buf: GpuBuffer = new_buffer(supply, true, DataAccess::Scattered, proxy.buffer_flags);
                ops.push(GraphOp::WriteBuffer { handle: supply.handle });
                let _ = self.bufs.insert(proxy.id, (buf, proxy.name));
            },
        }
        recorder.graph_empty = false;
        Ok(Recorded { ops, dispatch: None })
    }

    /// An upload of a uniform writes the buffer that is there at once, after all that was recorded
    /// before has been handed to the GPU, or a new buffer.
    pub open spec fn recorded_uniform(
        self,
        next: GoldyEngine,
        rec: Recorder,
        rec_next: Recorder,
        proxy: BufferProxy,
        len: nat,
        supplied: Supplied,
        r: Result<Recorded, Error>,
    ) -> bool {
        match self.uniform_target(proxy, len) {
            Some(buf) => {
                &&& next == self
                &&& rec_next == (Recorder { graph_empty: true, ..rec })
                &&& only_ops(r, flush_ops(rec.graph_empty).push(GraphOp::WriteNow { handle: buf.handle }))
            },
            None => match supplied.failed {
                Some(e) => self.failed(next, rec, rec_next, e, r),
                None => {
                    &&& self.filed_buffer(next, proxy.id, acquired_uniform(supplied.got@[0]), proxy.name)
                    &&& rec_next == rec
                    &&& only_ops(r, seq![])
                },
            },
        }
    }

    fn record_uniform(&mut self, recorder: &mut Recorder, proxy: &BufferProxy, len: usize, supplied: Supplied) -> (r:
        Result<Recorded, Error>)
        requires
            old(self).uniform_target(*proxy, len as nat) is None ==> supplied.covers(1),
        ensures
            old(self).recorded_uniform(*final(self), *old(recorder), *final(recorder), *proxy, len as nat, supplied, r),
    {
        let mut ops: Vec<GraphOp> = Vec::new();
        match self.find_uniform_target(proxy, len) {
            Some(buf) => {
                if recorder.flush() {
                    ops.push(GraphOp::Submit);
                }
                ops.push(GraphOp::WriteNow { handle: buf.handle });
            },
            None => {
                if let Some(e) = supplied.failed {
                    return Err(e);
                }
                let buf: GpuBuffer = new_buffer(supplied.got[0], true, DataAccess::Broadcast, 0);
                let _ = self.bufs.insert(proxy.id, (buf, proxy.name));
            },
        }
        Ok(Recorded { ops, dispatch: None })
    }

    /// An upload of an image goes to a new texture.
    pub open spec fn recorded_image(
        self,
        next: GoldyEngine,
        rec: Recorder,
        rec_next: Recorder,
        proxy: ImageProxy,
        supplied: Supplied,
        r: Result<Recorded, Error>,
    ) -> bool {
        match supplied.failed {
            Some(e) => self.failed(next, rec, rec_next, e, r),
            None => {
                &&& self.filed_image(next, proxy.id, supplied.got@[0], "uploaded_image")
                &&& rec_next == (Recorder { graph_empty: false, ..rec })
                &&& only_ops(r, seq![])
            },
        }
    }

    fn record_image(&mut self, recorder: &mut Recorder, proxy: &ImageProxy, supplied: Supplied) -> (r: Result<
        Recorded,
        Error,
    >)
        requires
            supplied.covers(1),
        ensures
            old(self).recorded_image(*final(self), *old(recorder), *final(recorder), *proxy, supplied, r),
    {
        if let Some(e) = supplied.failed {
            return Err(e);
        }
        let supply: Supply = supplied.got[0];
        let texture: GpuTexture = GpuTexture { handle: supply.handle, index: supply.index };
        let _ = self.images.insert(proxy.id, (texture, "uploaded_image"));
        recorder.graph_empty = false;
        Ok(Recorded { ops: Vec::new(), dispatch: None })
    }

    /// Pixels are written to the texture that is there, or to a new one.
    pub open spec fn recorded_write(
        self,
        next: GoldyEngine,
        rec: Recorder,
        rec_next: Recorder,
        proxy: ImageProxy,
        at: [u32; 2],
        image: ImageData,
        supplied: Supplied,
        r: Result<Recorded, Error>,
    ) -> bool {
        if self.images@.dom().contains(proxy.id) {
            &&& next == self
            &&& rec_next == (Recorder { graph_empty: false, ..rec })
            &&& only_ops(r, seq![write_at(self.images@[proxy.id].0.handle, at, image)])
        } else {
            match supplied.failed {
                Some(e) => self.failed(next, rec, rec_next, e, r),
                None => {
                    &&& self.filed_image(next, proxy.id, supplied.got@[0], "write_image_target")
                    &&& rec_next == (Recorder { graph_empty: false, ..rec })
                    &&& only_ops(r, seq![write_at(supplied.got@[0].handle, at, image)])
                },
            }
        }
    }

    fn record_write(
        &mut self,
        recorder: &mut Recorder,
        proxy: &ImageProxy,
        at: &[u32; 2],
        image: &ImageData,
        supplied: Supplied,
    ) -> (r: Result<Recorded, Error>)
        requires
            !old(self).images@.dom().contains(proxy.id) ==> supplied.covers(1),
        ensures
            old(self).recorded_write(
                *final(self),
                *old(recorder),
                *final(recorder),
                *proxy,
                *at,
                *image,
                supplied,
                r,
            ),
    {
        let there: Option<u64> = match self.images.get(&proxy.id) {
            Some(entry) => Some(entry.0.handle),
            None => None,
        };
        let handle: u64 = match there {
            Some(handle) => handle,
            None => {
                if let Some(e) = supplied.failed {
                    return Err(e);
                }
                let supply: Supply = supplied.got[0];
                let texture: GpuTexture = GpuTexture { handle: supply.handle, index: supply.index };
                let _ = self.images.insert(proxy.id, (texture, "write_image_target"));
                supply.handle
            },
        };
        let mut ops: Vec<GraphOp> = Vec::new();
        ops.push(
            GraphOp::WriteRegion { handle, x: at[0], y: at[1], width: image.width, height: image.height },
        );
        recorder.graph_empty = false;
        Ok(Recorded { ops, dispatch: None })
    }

    /// The number of bytes that are cleared.
    pub open spec fn clear_bytes(buffer_size: u64, off: u64, size: Option<u64>) -> u64 {
        match size {
            Some(n) => n,
            None => (buffer_size - off) as u64,
        }
    }

    /// The buffer that is there is cleared, or a new one.
    pub open spec fn recorded_clear(
        self,
        next: GoldyEngine,
        rec: Recorder,
        rec_next: Recorder,
        proxy: BufferProxy,
        off: u64,
        size: Option<u64>,
        supplied: Supplied,
        r: Result<Recorded, Error>,
    ) -> bool {
        if self.bufs@.dom().contains(proxy.id) {
            let buf = self.bufs@[proxy.id].0;
            &&& next == self
            &&& rec_next == (Recorder { graph_empty: false, ..rec })
            &&& only_ops(
                r,
                seq![
                    GraphOp::ClearBuffer {
                        handle: buf.handle,
                        view: !buf.owned,
                        offset: off,
                        size: Self::clear_bytes(buf.size, off, size),
                    },
                ],
            )
        } else {
            match supplied.failed {
                Some(e) => self.failed(next, rec, rec_next, e, r),
                None => {
                    &&& self.filed_buffer(next, proxy.id, proxy.acquired(supplied.got@[0]), proxy.name)
                    &&& rec_next == (Recorder { graph_empty: false, ..rec })
                    &&& only_ops(
                        r,
                        seq![
                            GraphOp::ClearBuffer {
                                handle: supplied.got@[0].handle,
                                view: false,
                                offset: off,
                                size: Self::clear_bytes(supplied.got@[0].size, off, size),
                            },
                        ],
                    )
                },
            }
        }
    }

    fn record_clear(
        &mut self,
        recorder: &mut Recorder,
        proxy: &BufferProxy,
        off: u64,
        size: Option<u64>,
        supplied: Supplied,
    ) -> (r: Result<Recorded, Error>)
        requires
            !old(self).bufs@.dom().contains(proxy.id) ==> supplied.covers(1) && (size is None && supplied.failed is None
                ==> off <= supplied.got@[0].size),
            old(self).bufs@.dom().contains(proxy.id) && size is None ==> off <= old(self).bufs@[proxy.id].0.size,
        ensures
            old(self).recorded_clear(*final(self), *old(recorder), *final(recorder), *proxy, off, size, supplied, r),
    {
        let there: Option<GpuBuffer> = match self.bufs.get(&proxy.id) {
            Some(entry) => Some(entry.0),
            None => None,
        };
        let buf: GpuBuffer = match there {
            Some(buf) => buf,
            None => {
                if let Some(e) = supplied.failed {
                    return Err(e);
                }
                let buf: GpuBuffer = new_buffer(supplied.got[0], true, DataAccess::Scattered, proxy.buffer_flags);
                let _ = self.bufs.insert(proxy.id, (buf, proxy.name));
                buf
            },
        };
        let bytes: u64 = match size {
            Some(n) => n,
            None => buf.size - off,
        };
        let mut ops: Vec<GraphOp> = Vec::new();
        ops.push(GraphOp::ClearBuffer { handle: buf.handle, view: !buf.owned, offset: off, size: bytes });
        recorder.graph_empty = false;
        Ok(Recorded { ops, dispatch: None })
    }

    /// A dispatch is recorded once its resources are there and have slots.
    pub open spec fn recorded_dispatch(
        self,
        next: GoldyEngine,
        rec: Recorder,
        rec_next: Recorder,
        shader: ShaderId,
        dims: (u32, u32, u32),
        bindings: Seq<ResourceProxy>,
        push_tail: Seq<u32>,
        supplied: Supplied,
        all_uav: bool,
        r: Result<Recorded, Error>,
    ) -> bool {
        let bind_types = self.shaders@[shader.0 as int]@;
        let present = self.dispatch_present(bindings, supplied.got@);
        &&& self.brought(next, present)
        &&& match supplied.failed {
            Some(e) => rec_next == rec && r == Err::<Recorded, Error>(e),
            None => if next.can_bind(bindings, bind_types, all_uav) {
                &&& rec_next == (Recorder {
                    graph_empty: false,
                    dispatch_count: (rec.dispatch_count + 1) as usize,
                    ..rec
                })
                &&& r matches Ok(recorded) && recorded.ops@ == present.ops && (recorded.dispatch matches Some(node)
                    && next.is_node(node, shader, None, dims, bindings, push_tail, all_uav))
            } else {
                &&& rec_next == rec
                &&& r matches Err(Error::Shader(text)) && next.cannot_bind(bindings, bind_types, all_uav, text@)
            },
        }
    }

    fn record_dispatch(
        &mut self,
        recorder: &mut Recorder,
        shader: ShaderId,
        dims: (u32, u32, u32),
        bindings: &Vec<ResourceProxy>,
        push_tail: &Vec<u32>,
        supplied: Supplied,
        all_uav: bool,
    ) -> (r: Result<Recorded, Error>)
        requires
            shader.0 < old(self).shaders@.len(),
            supplied.covers(old(self).dispatch_want(shader, bindings@).demands.len()),
            old(recorder).dispatch_count < usize::MAX,
        ensures
            old(self).recorded_dispatch(
                *final(self),
                *old(recorder),
                *final(recorder),
                shader,
                dims,
                bindings@,
                push_tail@,
                supplied,
                all_uav,
                r,
            ),
    {
        let mut ops: Vec<GraphOp> = Vec::new();
        let mut used: usize = 0;
        self.ensure_resources_materialized(&mut ops, &mut used, bindings.as_slice(), &supplied.got);
        if let Some(e) = supplied.failed {
            return Err(e);
        }
        let bind_types: &[BindType] = self.shaders[shader.0].as_slice();
        let indices: Vec<u32> = match self.collect_bindless_indices(bindings.as_slice(), bind_types, all_uav) {
            Ok(indices) => indices,
            Err(e) => {
                return Err(e);
            },
        };
        let declared: Vec<NodeBinding> = self.bind_graph_resources(bindings.as_slice(), bind_types);
        let mut words: Vec<u32> = Vec::new();
        words.extend_from_slice(push_tail.as_slice());
        assert(words@ =~= push_tail@);
        recorder.graph_empty = false;
        recorder.dispatch_count = recorder.dispatch_count + 1;
        Ok(
            Recorded {
                ops,
                dispatch: Some(
                    DispatchNode {
                        shader: shader.0,
                        indirect: None,
                        dims,
                        bindings: declared,
                        indices,
                        push_tail: words,
                    },
                ),
            },
        )
    }

    /// An indirect dispatch is recorded once its resources are there and have slots, if the size is
    /// in a buffer of its own.
    pub open spec fn recorded_indirect(
        self,
        next: GoldyEngine,
        rec: Recorder,
        rec_next: Recorder,
        shader: ShaderId,
        proxy: BufferProxy,
        offset: u64,
        bindings: Seq<ResourceProxy>,
        supplied: Supplied,
        all_uav: bool,
        r: Result<Recorded, Error>,
    ) -> bool {
        let bind_types = self.shaders@[shader.0 as int]@;
        let present = self.indirect_present(proxy, bindings, supplied.got@);
        let buf = next.bufs@[proxy.id].0;
        &&& self.brought(next, present)
        &&& match supplied.failed {
            Some(e) => rec_next == rec && r == Err::<Recorded, Error>(e),
            None => if !next.can_bind(bindings, bind_types, all_uav) {
                &&& rec_next == rec
                &&& r matches Err(Error::Shader(text)) && next.cannot_bind(bindings, bind_types, all_uav, text@)
            } else if buf.owned {
                &&& rec_next == (Recorder {
                    graph_empty: false,
                    dispatch_count: (rec.dispatch_count + 1) as usize,
                    ..rec
                })
                &&& r matches Ok(recorded) && recorded.ops@ == present.ops && (recorded.dispatch matches Some(node)
                    && next.is_node(node, shader, Some((buf.handle, offset)), (0, 0, 0), bindings, seq![], all_uav))
            } else {
                &&& rec_next == (Recorder { graph_empty: rec.graph_empty && present.ops.len() == 0, ..rec })
                &&& only_ops(r, present.ops)
            },
        }
    }

    fn record_indirect(
        &mut self,
        recorder: &mut Recorder,
        shader: ShaderId,
        proxy: &BufferProxy,
        offset: u64,
        bindings: &Vec<ResourceProxy>,
        supplied: Supplied,
        all_uav: bool,
    ) -> (r: Result<Recorded, Error>)
        requires
            shader.0 < old(self).shaders@.len(),
            supplied.covers(old(self).indirect_want(shader, *proxy, bindings@).demands.len()),
            old(recorder).dispatch_count < usize::MAX,
        ensures
            old(self).recorded_indirect(
                *final(self),
                *old(recorder),
                *final(recorder),
                shader,
                *proxy,
                offset,
                bindings@,
                supplied,
                all_uav,
                r,
            ),
    {
        let ghost start = *self;
        let ghost pool = self.storage_pool is Some;
        let mut ops: Vec<GraphOp> = Vec::new();
        let mut used: usize = 0;
        let first: [ResourceProxy; 1] = [ResourceProxy::Buffer(*proxy)];
        self.ensure_resources_materialized(&mut ops, &mut used, &first, &supplied.got);
        proof {
            lemma_one_present(start.present(), first@, pool, supplied.got@);
        }
        self.ensure_resources_materialized(&mut ops, &mut used, bindings.as_slice(), &supplied.got);
        if let Some(e) = supplied.failed {
            return Err(e);
        }
        let bind_types: &[BindType] = self.shaders[shader.0].as_slice();
        let indices: Vec<u32> = match self.collect_bindless_indices(bindings.as_slice(), bind_types, all_uav) {
            Ok(indices) => indices,
            Err(e) => {
                return Err(e);
            },
        };
        proof {
            let types = start.shaders@[shader.0 as int]@;
            let one_w = start.want().then_bound(ResourceProxy::Buffer(*proxy), Some(BindType::Buffer), pool);
            let one_p = start.present().then_bound(ResourceProxy::Buffer(*proxy), pool, supplied.got@);
            lemma_one_want(start.want(), first@, seq![BindType::Buffer], pool);
            lemma_wants_are_met(start.want(), start.present(), first@, seq![BindType::Buffer], pool, supplied.got@, 1);
            lemma_wants_only_grow(one_w, bindings@, types, pool, bindings@.len() as int);
            lemma_wants_are_met(one_w, one_p, bindings@, types, pool, supplied.got@, bindings@.len() as int);
            lemma_wants_only_grow(start.want(), first@, seq![BindType::Buffer], pool, 1);
            assert(one_w.bufs.contains(proxy.id));
            assert(self.bufs@.dom().contains(proxy.id));
        }
        let buf: GpuBuffer = match self.bufs.get(&proxy.id) {
            Some(entry) => entry.0,
            None => {
                return Ok(Recorded { ops, dispatch: None });
            },
        };
        if !buf.owned {
            recorder.graph_empty = recorder.graph_empty && ops.len() == 0;
            return Ok(Recorded { ops, dispatch: None });
        }
        let mut declared: Vec<NodeBinding> = self.bind_graph_resources(bindings.as_slice(), bind_types);
        declared.push(NodeBinding::Buffer { handle: buf.handle, access: NodeAccess::Read });
        recorder.graph_empty = false;
        recorder.dispatch_count = recorder.dispatch_count + 1;
        Ok(
            Recorded {
                ops,
                dispatch: Some(
                    DispatchNode {
                        shader: shader.0,
                        indirect: Some((buf.handle, offset)),
                        dims: (0, 0, 0),
                        bindings: declared,
                        indices,
                        push_tail: Vec::new(),
                    },
                ),
            },
        )
    }

    /// Records a command, for which `supplied` has been acquired.
    ///
    /// A failure ends the recording. What was acquired before it stays on the GPU.
    pub fn record(
        &mut self,
        recorder: &mut Recorder,
        command: &Command,
        supplied: Supplied,
        software: bool,
    ) -> (r: Result<Recorded, Error>)
        requires
            old(self).accepts(*command),
            supplied.covers(old(self).demands_of(*command).len()),
            old(recorder).dispatch_count < usize::MAX,
            supplied.clears_within(*command),
        ensures
            old(self).recorded(*final(self), *old(recorder), *final(recorder), *command, supplied, software, r),
    {
        match command {
            Command::Upload(proxy, bytes) => self.record_upload(recorder, proxy, bytes.len(), supplied),
            Command::UploadUniform(proxy, bytes) => self.record_uniform(recorder, proxy, bytes.len(), supplied),
            Command::UploadImage(proxy, _) => self.record_image(recorder, proxy, supplied),
            Command::WriteImage(proxy, at, image, _) => self.record_write(recorder, proxy, at, image, supplied),
            Command::Download(proxy) => {
                recorder.pending_downloads.push(*proxy);
                Ok(Recorded { ops: Vec::new(), dispatch: None })
            },
            Command::Clear(proxy, off, size) => self.record_clear(recorder, proxy, *off, *size, supplied),
            Command::FreeBuffer(proxy) => {
                recorder.free_buffers.push(proxy.id);
                Ok(Recorded { ops: Vec::new(), dispatch: None })
            },
            Command::FreeImage(proxy) => {
                recorder.free_images.push(proxy.id);
                Ok(Recorded { ops: Vec::new(), dispatch: None })
            },
            Command::Dispatch(shader, dims, bindings, push_tail) => {
                if dims.0 == 0 || dims.1 == 0 || dims.2 == 0 {
                    return Ok(Recorded { ops: Vec::new(), dispatch: None });
                }
                self.record_dispatch(recorder, *shader, *dims, bindings, push_tail, supplied, force_uav(software))
            },
            Command::DispatchIndirect(shader, proxy, offset, bindings) => {
                self.record_indirect(recorder, *shader, proxy, *offset, bindings, supplied, force_uav(software))
            },
            Command::Draw => Ok(Recorded { ops: Vec::new(), dispatch: None }),
        }
    }
}

/// What is asked for once stays asked for.
proof fn lemma_wants_only_grow(
    want: Want,
    bindings: Seq<ResourceProxy>,
    bind_types: Seq<BindType>,
    pool: bool,
    n: int,
)
    ensures
        want.bufs.subset_of(want.then_all(bindings, bind_types, pool, n).bufs),
        want.images.subset_of(want.then_all(bindings, bind_types, pool, n).images),
        want.demands.len() <= want.then_all(bindings, bind_types, pool, n).demands.len(),
    decreases n,
{
    if n > 0 {
        lemma_wants_only_grow(want, bindings, bind_types, pool, n - 1);
    }
}

impl Recorder {
    /// Starts a new graph. Returns whether the old one has to be handed to the GPU, which is where it
    /// is not empty.
    pub fn flush(&mut self) -> (submit: bool)
        ensures
            submit == !old(self).graph_empty,
            *final(self) == (Recorder { graph_empty: true, ..*old(self) }),
    {
        let submit: bool = !self.graph_empty;
        self.graph_empty = true;
        submit
    }
}


/// What is asked for, and what is there, once a binding has been taken care of.
pub open spec fn wants(want: Want, res: ResourceProxy) -> bool {
    match res {
        ResourceProxy::Buffer(p) | ResourceProxy::BufferRange { proxy: p, .. } => want.bufs.contains(p.id),
        ResourceProxy::Image(p) => want.images.contains(p.id),
    }
}

proof fn lemma_all_are_wanted(want: Want, bindings: Seq<ResourceProxy>, bind_types: Seq<BindType>, pool: bool, n: int)
    requires
        0 <= n <= bindings.len(),
    ensures
        forall|k: int| 0 <= k < n ==> wants(want.then_all(bindings, bind_types, pool, n), #[trigger] bindings[k]),
    decreases n,
{
    if n > 0 {
        lemma_all_are_wanted(want, bindings, bind_types, pool, n - 1);
        let w = want.then_all(bindings, bind_types, pool, n - 1);
        lemma_wants_only_grow(w, seq![bindings[n - 1]], seq![], pool, 1);
    }
}

/// A dispatch for which everything was acquired finds all of its resources on the GPU.
pub proof fn bindings_are_on_the_gpu(
    engine: GoldyEngine,
    next: GoldyEngine,
    shader: ShaderId,
    bindings: Seq<ResourceProxy>,
    got: Seq<Supply>,
)
    requires
        engine.brought(next, engine.dispatch_present(bindings, got)),
        got.len() == engine.dispatch_want(shader, bindings).demands.len(),
    ensures
        forall|k: int| 0 <= k < bindings.len() ==> next.has(#[trigger] bindings[k]),
{
    let types = engine.shaders@[shader.0 as int]@;
    let pool = engine.storage_pool is Some;
    lemma_all_are_wanted(engine.want(), bindings, types, pool, bindings.len() as int);
    lemma_wants_are_met(engine.want(), engine.present(), bindings, types, pool, got, bindings.len() as int);
}

/// The counters of a recording are downloaded from this buffer.
pub open spec fn bumps_buf_static_name() -> &'static str {
    "vello.bump_buf"
}

/// What has to be done before the previous recording is drained: wait for its work, then read these
/// buffers, each with its size.
#[derive(Debug)]
pub struct DrainRequest {
    pub timeline: u64,
    pub reads: Vec<(u64, u64)>,
}

/// How the wait went, and what was read up to the first failure.
pub struct DrainOutcome {
    pub wait: Result<(), Error>,
    pub reads: Vec<Vec<u8>>,
    pub read_failed: Option<Error>,
}

/// What has been downloaded.
#[verifier::ext_equal]
pub struct ReadBack {
    pub downloads: Map<u64, Vec<u8>>,
    /// The bytes of the counters, where they have been read.
    pub bump: Option<Seq<u8>>,
    pub used: int,
}

/// The buffer of a download can be read.
pub open spec fn readable(bufs: BufferMap, proxy: BufferProxy) -> bool {
    bufs.dom().contains(proxy.id) && bufs[proxy.id].0.owned
}

impl ReadBack {
    /// A download that can be read takes what was read next, if there is any. The counters are not
    /// kept as a download.
    pub open spec fn then_read(self, proxy: BufferProxy, bufs: BufferMap, reads: Seq<Vec<u8>>) -> ReadBack {
        if !readable(bufs, proxy) || self.used >= reads.len() {
            self
        } else if proxy.name@ == bumps_buf_static_name()@ {
            ReadBack {
                downloads: self.downloads.remove(proxy.id),
                bump: Some(reads[self.used]@),
                used: self.used + 1,
            }
        } else {
            ReadBack { downloads: self.downloads.insert(proxy.id, reads[self.used]), used: self.used + 1, ..self }
        }
    }

    /// The first `n` downloads.
    pub open spec fn then_all(self, pending: Seq<BufferProxy>, bufs: BufferMap, reads: Seq<Vec<u8>>, n: int) -> ReadBack
        decreases n,
    {
        if n <= 0 {
            self
        } else {
            self.then_all(pending, bufs, reads, n - 1).then_read(pending[n - 1], bufs, reads)
        }
    }
}

/// The buffers that are read for the first `n` downloads.
pub open spec fn reads_of(bufs: BufferMap, pending: Seq<BufferProxy>, n: int) -> Seq<(u64, u64)>
    decreases n,
{
    if n <= 0 {
        seq![]
    } else if readable(bufs, pending[n - 1]) {
        reads_of(bufs, pending, n - 1).push((bufs[pending[n - 1].id].0.handle, bufs[pending[n - 1].id].0.size))
    } else {
        reads_of(bufs, pending, n - 1)
    }
}

/// The map without the ids.
pub open spec fn without<V>(m: Map<u64, V>, ids: Seq<u64>, n: int) -> Map<u64, V>
    decreases n,
{
    if n <= 0 {
        m
    } else {
        without(m, ids, n - 1).remove(ids[n - 1])
    }
}

/// The textures of the first `n` images that are freed.
pub open spec fn freed_textures(images: ImageMap, ids: Seq<u64>, n: int) -> Seq<u64>
    decreases n,
{
    if n <= 0 {
        seq![]
    } else {
        let before = without(images, ids, n - 1);
        if before.dom().contains(ids[n - 1]) {
            freed_textures(images, ids, n - 1).push(before[ids[n - 1]].0.handle)
        } else {
            freed_textures(images, ids, n - 1)
        }
    }
}

/// The textures that go back to the pool, and how draining went.
pub struct Drained {
    pub released: Vec<u64>,
    pub result: Result<(), Error>,
}

impl GoldyEngine {
    /// No shader has been added and nothing has been recorded.
    pub open spec fn is_new(self) -> bool {
        &&& self.shaders@.len() == 0
        &&& self.bufs@ == Map::<u64, (GpuBuffer, &'static str)>::empty()
        &&& self.images@ == Map::<u64, (GpuTexture, &'static str)>::empty()
        &&& self.downloads@ == Map::<u64, Vec<u8>>::empty()
        &&& self.storage_pool is None
        &&& !self.pool_clear_in_next_submit
        &&& self.prev_frame_timeline is None
        &&& !self.surface_frame_in_flight
        &&& self.prev_pending_downloads@.len() == 0
        &&& self.prev_deferred_free_buffers@.len() == 0
        &&& self.prev_deferred_free_images@.len() == 0
        &&& self.prev_output_image_id is None
        &&& self.last_drained_bump is None
    }

    /// An engine without shaders and resources.
    pub fn new() -> (engine: Self)
        ensures
            engine.is_new(),
    {
        GoldyEngine {
            shaders: Vec::new(),
            bufs: HashMap::new(),
            images: HashMap::new(),
            downloads: HashMap::new(),
            storage_pool: None,
            pool_clear_in_next_submit: false,
            prev_frame_timeline: None,
            surface_frame_in_flight: false,
            prev_pending_downloads: Vec::new(),
            prev_deferred_free_buffers: Vec::new(),
            prev_deferred_free_images: Vec::new(),
            prev_output_image_id: None,
            last_drained_bump: None,
        }
    }

    /// Adds a compute shader that was compiled. Shaders are numbered in the order in which they are
    /// added.
    pub fn add_compute_shader(&mut self, bindings: Vec<BindType>, compiled: Result<(), Error>) -> (r: Result<
        ShaderId,
        Error,
    >)
        ensures
            match compiled {
                Ok(()) => {
                    &&& r == Ok::<ShaderId, Error>(ShaderId(old(self).shaders@.len() as usize))
                    &&& final(self).shaders@ == old(self).shaders@.push(bindings)
                    &&& *final(self) == (GoldyEngine { shaders: final(self).shaders, ..*old(self) })
                },
                Err(e) => r == Err::<ShaderId, Error>(e) && *final(self) == *old(self),
            },
            r matches Ok(id) ==> id.0 < final(self).shaders@.len() && final(self).shaders@[id.0 as int] == bindings,
            forall|i: int| 0 <= i < old(self).shaders@.len() ==> #[trigger] final(self).shaders@[i] == old(self).shaders@[i],
    {
        match compiled {
            Ok(()) => {
                let id: ShaderId = ShaderId(self.shaders.len());
                self.shaders.push(bindings);
                Ok(id)
            },
            Err(e) => Err(e),
        }
    }

    /// What has to be waited for and read before the previous recording can be drained.
    pub fn drain_request(&self) -> (request: Option<DrainRequest>)
        ensures
            match request {
                Some(d) => {
                    &&& self.prev_frame_timeline == Some(d.timeline)
                    &&& d.reads@ == reads_of(
                        self.bufs@,
                        self.prev_pending_downloads@,
                        self.prev_pending_downloads@.len() as int,
                    )
                },
                None => self.prev_frame_timeline is None,
            },
    {
        match self.prev_frame_timeline {
            None => None,
            Some(timeline) => {
                let mut reads: Vec<(u64, u64)> = Vec::new();
                let mut i: usize = 0;
                while i < self.prev_pending_downloads.len()
                    invariant
                        i <= self.prev_pending_downloads.len(),
                        reads@ == reads_of(self.bufs@, self.prev_pending_downloads@, i as int),
                    decreases self.prev_pending_downloads.len() - i,
                {
                    if let Some(entry) = self.bufs.get(&self.prev_pending_downloads[i].id) {
                        if entry.0.owned {
                            reads.push((entry.0.handle, entry.0.size));
                        }
                    }
                    i = i + 1;
                }
                Some(DrainRequest { timeline, reads })
            },
        }
    }

    /// The outcome belongs to what is drained: everything was read, unless something failed, and the
    /// counters have the size of the counters.
    pub open spec fn drains(self, outcome: DrainOutcome) -> bool {
        let pending = self.prev_pending_downloads@;
        let wanted = reads_of(self.bufs@, pending, pending.len() as int).len();
        self.prev_frame_timeline is Some && outcome.wait is Ok ==> {
            &&& match outcome.read_failed {
                None => outcome.reads@.len() == wanted,
                Some(_) => outcome.reads@.len() < wanted,
            }
            &&& forall|i: int|
                #![trigger pending[i]]
                0 <= i < pending.len() && readable(self.bufs@, pending[i]) && pending[i].name@
                    == bumps_buf_static_name()@ && reads_of(self.bufs@, pending, i).len() < outcome.reads@.len()
                    ==> outcome.reads@[reads_of(self.bufs@, pending, i).len() as int]@.len() == 36
        }
    }

    /// What has been downloaded after draining.
    pub open spec fn read_back(self, reads: Seq<Vec<u8>>) -> ReadBack {
        ReadBack { downloads: self.downloads@, bump: None, used: 0 }.then_all(
            self.prev_pending_downloads@,
            self.bufs@,
            reads,
            self.prev_pending_downloads@.len() as int,
        )
    }

    /// The downloads have been taken over.
    pub open spec fn took_downloads(self, next: GoldyEngine, back: ReadBack) -> bool {
        &&& next.downloads@ == back.downloads
        &&& match back.bump {
            Some(bytes) => next.last_drained_bump matches Some(bump) && is_bump_of(bump, bytes),
            None => next.last_drained_bump == self.last_drained_bump,
        }
    }

    /// What was freed in the previous recording is gone.
    pub open spec fn freed(self, next: GoldyEngine) -> bool {
        let images = without(
            self.images@,
            self.prev_deferred_free_images@,
            self.prev_deferred_free_images@.len() as int,
        );
        &&& next.bufs@ == without(
            self.bufs@,
            self.prev_deferred_free_buffers@,
            self.prev_deferred_free_buffers@.len() as int,
        )
        &&& next.images@ == (match self.prev_output_image_id {
            Some(id) => images.remove(id),
            None => images,
        })
        &&& next.prev_deferred_free_buffers@.len() == 0
        &&& next.prev_deferred_free_images@.len() == 0
        &&& next.prev_output_image_id is None
    }

    /// The previous recording has been drained.
    ///
    /// A wait that failed means that the work came to an end all the same: its downloads are dropped,
    /// and what it freed is freed. A download that failed leaves what it freed where it is.
    pub open spec fn drained(self, next: GoldyEngine, outcome: DrainOutcome, drained: Drained) -> bool {
        if self.prev_frame_timeline is None {
            next == self && drained.result is Ok && drained.released@.len() == 0
        } else {
            &&& next.prev_frame_timeline is None
            &&& next.prev_pending_downloads@.len() == 0
            &&& next == (GoldyEngine {
                bufs: next.bufs,
                images: next.images,
                downloads: next.downloads,
                prev_frame_timeline: None,
                prev_pending_downloads: next.prev_pending_downloads,
                prev_deferred_free_buffers: next.prev_deferred_free_buffers,
                prev_deferred_free_images: next.prev_deferred_free_images,
                prev_output_image_id: next.prev_output_image_id,
                last_drained_bump: next.last_drained_bump,
                ..self
            })
            &&& match outcome.wait {
                Ok(()) => {
                    &&& self.took_downloads(next, self.read_back(outcome.reads@))
                    &&& match outcome.read_failed {
                        Some(e) => {
                            &&& drained.result == Err::<(), Error>(e)
                            &&& drained.released@.len() == 0
                            &&& next.bufs == self.bufs
                            &&& next.images == self.images
                            &&& next.prev_deferred_free_buffers == self.prev_deferred_free_buffers
                            &&& next.prev_deferred_free_images == self.prev_deferred_free_images
                            &&& next.prev_output_image_id == self.prev_output_image_id
                        },
                        None => {
                            &&& drained.result is Ok
                            &&& self.freed(next)
                            &&& drained.released@ == freed_textures(
                                self.images@,
                                self.prev_deferred_free_images@,
                                self.prev_deferred_free_images@.len() as int,
                            )
                        },
                    }
                },
                Err(e) => {
                    &&& drained.result == Err::<(), Error>(e)
                    &&& next.downloads == self.downloads
                    &&& next.last_drained_bump == self.last_drained_bump
                    &&& self.freed(next)
                    &&& drained.released@ == freed_textures(
                        self.images@,
                        self.prev_deferred_free_images@,
                        self.prev_deferred_free_images@.len() as int,
                    )
                },
            }
        }
    }

    /// Takes the downloads of the previous recording over.
    fn take_downloads(&mut self, mut reads: Vec<Vec<u8>>)
        requires
            old(self).prev_frame_timeline is Some,
            forall|i: int|
                #![trigger old(self).prev_pending_downloads@[i]]
                0 <= i < old(self).prev_pending_downloads@.len() && readable(
                    old(self).bufs@,
                    old(self).prev_pending_downloads@[i],
                ) && old(self).prev_pending_downloads@[i].name@ == bumps_buf_static_name()@ && reads_of(
                    old(self).bufs@,
                    old(self).prev_pending_downloads@,
                    i,
                ).len() < reads@.len() ==> reads@[reads_of(
                    old(self).bufs@,
                    old(self).prev_pending_downloads@,
                    i,
                ).len() as int]@.len() == 36,
        ensures
            old(self).took_downloads(*final(self), old(self).read_back(reads@)),
            *final(self) == (GoldyEngine {
                downloads: final(self).downloads,
                last_drained_bump: final(self).last_drained_bump,
                ..*old(self)
            }),
    {
        let ghost start = *self;
        let ghost all = reads@;
        let ghost first = ReadBack { downloads: self.downloads@, bump: None, used: 0 };
        let ghost mut used: int = 0;
        let mut i: usize = 0;
        let n: usize = self.prev_pending_downloads.len();
        assert(all.skip(0) =~= all);
        while i < n
            invariant
                i <= n,
                n == start.prev_pending_downloads@.len(),
                first == (ReadBack { downloads: start.downloads@, bump: None, used: 0 }),
                *self == (GoldyEngine {
                    downloads: self.downloads,
                    last_drained_bump: self.last_drained_bump,
                    ..start
                }),
                0 <= used <= all.len(),
                reads@ == all.skip(used),
                used == first.then_all(start.prev_pending_downloads@, start.bufs@, all, i as int).used,
                used == (if reads_of(start.bufs@, start.prev_pending_downloads@, i as int).len() <= all.len() {
                    reads_of(start.bufs@, start.prev_pending_downloads@, i as int).len() as int
                } else {
                    all.len() as int
                }),
                start.took_downloads(
                    *self,
                    first.then_all(start.prev_pending_downloads@, start.bufs@, all, i as int),
                ),
                forall|k: int|
                    #![trigger start.prev_pending_downloads@[k]]
                    0 <= k < n && readable(start.bufs@, start.prev_pending_downloads@[k])
                        && start.prev_pending_downloads@[k].name@ == bumps_buf_static_name()@ && reads_of(
                        start.bufs@,
                        start.prev_pending_downloads@,
                        k,
                    ).len() < all.len() ==> all[reads_of(
                        start.bufs@,
                        start.prev_pending_downloads@,
                        k,
                    ).len() as int]@.len() == 36,
            decreases n - i,
        {
            let proxy: BufferProxy = self.prev_pending_downloads[i];
            let owned: bool = match self.bufs.get(&proxy.id) {
                Some(entry) => entry.0.owned,
                None => false,
            };
            if owned && reads.len() > 0 {
                assert(all.skip(used)[0] == all[used]);
                let data: Vec<u8> = reads.remove(0);
                assert(reads@ =~= all.skip(used + 1));
                if same_text(proxy.name, "vello.bump_buf") {
                    self.last_drained_bump = Some(bump_from_bytes(data.as_slice()));
                    let _ = self.downloads.remove(&proxy.id);
                } else {
                    let _ = self.downloads.insert(proxy.id, data);
                }
                proof {
                    used = used + 1;
                }
            }
            i = i + 1;
        }
    }

    /// Frees what was freed in the previous recording. Returns the textures that go back to the pool;
    /// the output image is only let go.
    fn free_deferred(&mut self) -> (released: Vec<u64>)
        ensures
            old(self).freed(*final(self)),
            released@ == freed_textures(
                old(self).images@,
                old(self).prev_deferred_free_images@,
                old(self).prev_deferred_free_images@.len() as int,
            ),
            *final(self) == (GoldyEngine {
                bufs: final(self).bufs,
                images: final(self).images,
                prev_deferred_free_buffers: final(self).prev_deferred_free_buffers,
                prev_deferred_free_images: final(self).prev_deferred_free_images,
                prev_output_image_id: None,
                ..*old(self)
            }),
    {
        let ghost start = *self;
        let mut i: usize = 0;
        while i < self.prev_deferred_free_buffers.len()
            invariant
                i <= self.prev_deferred_free_buffers.len(),
                *self == (GoldyEngine { bufs: self.bufs, ..start }),
                self.bufs@ == without(start.bufs@, start.prev_deferred_free_buffers@, i as int),
            decreases self.prev_deferred_free_buffers.len() - i,
        {
            let id: u64 = self.prev_deferred_free_buffers[i];
            let _ = self.bufs.remove(&id);
            i = i + 1;
        }
        self.prev_deferred_free_buffers = Vec::new();
        let ghost mid = *self;
        let mut released: Vec<u64> = Vec::new();
        let mut j: usize = 0;
        while j < self.prev_deferred_free_images.len()
            invariant
                j <= self.prev_deferred_free_images.len(),
                mid.images == start.images,
                mid.prev_deferred_free_images == start.prev_deferred_free_images,
                *self == (GoldyEngine { images: self.images, ..mid }),
                self.images@ == without(start.images@, start.prev_deferred_free_images@, j as int),
                released@ == freed_textures(start.images@, start.prev_deferred_free_images@, j as int),
            decreases self.prev_deferred_free_images.len() - j,
        {
            let id: u64 = self.prev_deferred_free_images[j];
            if let Some(entry) = self.images.remove(&id) {
                released.push(entry.0.handle);
            }
            j = j + 1;
        }
        self.prev_deferred_free_images = Vec::new();
        if let Some(id) = self.prev_output_image_id.take() {
            let _ = self.images.remove(&id);
        }
        released
    }

    /// Drains the previous recording, for which `outcome` was waited for and read.
    pub fn drain_completed_submit(&mut self, outcome: DrainOutcome) -> (drained: Drained)
        requires
            old(self).drains(outcome),
        ensures
            old(self).drained(*final(self), outcome, drained),
    {
        if self.prev_frame_timeline.is_none() {
            return Drained { released: Vec::new(), result: Ok(()) };
        }
        match outcome.wait {
            Ok(()) => {
                self.take_downloads(outcome.reads);
                self.prev_frame_timeline = None;
                self.prev_pending_downloads = Vec::new();
                if let Some(e) = outcome.read_failed {
                    return Drained { released: Vec::new(), result: Err(e) };
                }
                let released: Vec<u64> = self.free_deferred();
                Drained { released, result: Ok(()) }
            },
            Err(e) => {
                self.prev_frame_timeline = None;
                self.prev_pending_downloads = Vec::new();
                let released: Vec<u64> = self.free_deferred();
                Drained { released, result: Err(e) }
            },
        }
    }
}


/// A swapchain frame has to be presented first.
pub open spec fn frame_open_reason() -> &'static str {
    "GoldyEngine: swapchain frame still open \u{2014} call frame.present() then GoldyEngine::after_surface_present(tv) before more GPU work."
}

/// No swapchain frame is there to be presented.
pub open spec fn no_frame_reason() -> &'static str {
    "GoldyEngine::after_surface_present: no surface frame in flight (forgot run_recording_to_frame, or called twice)"
}

/// A recording that starts, the textures that go back to the pool, and how much of the storage pool
/// is cleared first.
pub struct Started {
    pub released: Vec<u64>,
    pub clear_pool: Option<u64>,
    pub recorder: Result<Recorder, Error>,
}

/// What is done about the storage pool.
#[derive(Clone, Copy, Debug, PartialEq, Eq, Structural)]
pub enum PoolStep {
    /// There is no storage pool on the device.
    Skip,
    /// The pool is large enough and is used from its start again.
    Reset,
    /// A new pool takes the place of the old one.
    Renew,
}

impl GoldyEngine {
    /// More GPU work has to wait until the swapchain frame has been presented.
    pub fn assert_no_surface_frame_in_flight(&self) -> (r: Result<(), Error>)
        ensures
            match r {
                Ok(()) => !self.surface_frame_in_flight,
                Err(e) => self.surface_frame_in_flight && (e matches Error::Shader(text) && text@
                    == frame_open_reason()@),
            },
    {
        if self.surface_frame_in_flight {
            return Err(
                Error::Shader(
                    String::from_str(
                        "GoldyEngine: swapchain frame still open \u{2014} call frame.present() then GoldyEngine::after_surface_present(tv) before more GPU work.",
                    ),
                ),
            );
        }
        Ok(())
    }

    /// The engine waits for its work, unless a swapchain frame is open.
    pub open spec fn waited(self, next: GoldyEngine, outcome: DrainOutcome, drained: Drained) -> bool {
        if self.surface_frame_in_flight {
            &&& next == self
            &&& drained.released@.len() == 0
            &&& drained.result matches Err(Error::Shader(text)) && text@ == frame_open_reason()@
        } else {
            self.drained(next, outcome, drained)
        }
    }

    /// Waits for the work of the previous recording, and makes its downloads available.
    pub fn wait_until_gpu_idle(&mut self, outcome: DrainOutcome) -> (drained: Drained)
        requires
            !old(self).surface_frame_in_flight ==> old(self).drains(outcome),
        ensures
            old(self).waited(*final(self), outcome, drained),
    {
        match self.assert_no_surface_frame_in_flight() {
            Ok(()) => self.drain_completed_submit(outcome),
            Err(e) => Drained { released: Vec::new(), result: Err(e) },
        }
    }

    /// Waits for the work of the previous recording, and makes its downloads available.
    ///
    /// Without it the next recording drains what has completed when it starts.
    pub fn finish_frame_for_readback(&mut self, outcome: DrainOutcome) -> (drained: Drained)
        requires
            !old(self).surface_frame_in_flight ==> old(self).drains(outcome),
        ensures
            old(self).waited(*final(self), outcome, drained),
    {
        self.wait_until_gpu_idle(outcome)
    }

    /// Takes note that the swapchain frame was presented.
    pub fn after_surface_present(&mut self, timeline: u64) -> (r: Result<(), Error>)
        ensures
            match r {
                Ok(()) => old(self).surface_frame_in_flight && *final(self) == (GoldyEngine {
                    surface_frame_in_flight: false,
                    prev_frame_timeline: Some(timeline),
                    ..*old(self)
                }),
                Err(e) => {
                    &&& !old(self).surface_frame_in_flight
                    &&& *final(self) == *old(self)
                    &&& e matches Error::Shader(text) && text@ == no_frame_reason()@
                },
            },
            !final(self).surface_frame_in_flight,
            old(self).surface_frame_in_flight ==> final(self).prev_frame_timeline == Some(timeline),
    {
        if !self.surface_frame_in_flight {
            return Err(
                Error::Shader(
                    String::from_str(
                        "GoldyEngine::after_surface_present: no surface frame in flight (forgot run_recording_to_frame, or called twice)",
                    ),
                ),
            );
        }
        self.surface_frame_in_flight = false;
        self.prev_frame_timeline = Some(timeline);
        Ok(())
    }

    /// The storage pool that is cleared when the next recording starts.
    pub open spec fn pool_to_clear(self) -> Option<u64> {
        if self.pool_clear_in_next_submit {
            self.storage_pool
        } else {
            None
        }
    }

    /// A recording has started on an engine that has been drained.
    pub open spec fn started(
        self,
        next: GoldyEngine,
        recorder: Recorder,
        output: Option<(u64, GpuTexture)>,
        surface: bool,
    ) -> bool {
        &&& next.images@ == (match output {
            Some((id, texture)) => self.images@.insert(id, (texture, "output")),
            None => self.images@,
        })
        &&& next == (GoldyEngine { images: next.images, pool_clear_in_next_submit: false, ..self })
        &&& recorder.surface == surface
        &&& recorder.graph_empty == self.pool_to_clear() is None
        &&& recorder.pending_downloads@.len() == 0
        &&& recorder.free_buffers@.len() == 0
        &&& recorder.free_images@.len() == 0
        &&& recorder.output_image_id == (match output {
            Some((id, _)) => Some(id),
            None => None,
        })
        &&& recorder.dispatch_count == 0
    }

    /// The previous recording has been drained, and a new one starts, unless something is wrong.
    pub open spec fn started_after(
        self,
        next: GoldyEngine,
        outcome: DrainOutcome,
        output: Option<(u64, GpuTexture)>,
        surface: bool,
        start: Started,
    ) -> bool {
        exists|mid: GoldyEngine, drained: Drained|
            {
                &&& #[trigger] self.waited(mid, outcome, drained)
                &&& start.released@ == drained.released@
                &&& match drained.result {
                    Err(e) => next == mid && start.clear_pool is None && start.recorder == Err::<Recorder, Error>(e),
                    Ok(()) => {
                        &&& start.clear_pool == mid.pool_to_clear()
                        &&& start.recorder matches Ok(recorder) && mid.started(next, recorder, output, surface)
                    },
                }
            }
    }

    fn start_recording(&mut self, outcome: DrainOutcome, output: Option<(u64, GpuTexture)>, surface: bool) -> (start:
        Started)
        requires
            !old(self).surface_frame_in_flight ==> old(self).drains(outcome),
        ensures
            old(self).started_after(*final(self), outcome, output, surface, start),
    {
        let ghost before = *self;
        let drained: Drained = self.wait_until_gpu_idle(outcome);
        let ghost mid = *self;
        assert(before.waited(mid, outcome, drained));
        let released: Vec<u64> = drained.released;
        match drained.result {
            Err(e) => Started { released, clear_pool: None, recorder: Err(e) },
            Ok(()) => {
                let clear_pool: Option<u64> = if self.pool_clear_in_next_submit {
                    self.storage_pool
                } else {
                    None
                };
                self.pool_clear_in_next_submit = false;
                let output_image_id: Option<u64> = match output {
                    Some((id, texture)) => {
                        let _ = self.images.insert(id, (texture, "output"));
                        Some(id)
                    },
                    None => None,
                };
                let recorder: Recorder = Recorder {
                    surface,
                    graph_empty: clear_pool.is_none(),
                    pending_downloads: Vec::new(),
                    free_buffers: Vec::new(),
                    free_images: Vec::new(),
                    output_image_id,
                    dispatch_count: 0,
                };
                Started { released, clear_pool, recorder: Ok(recorder) }
            },
        }
    }

    /// Starts a recording, for which `outcome` was waited for and read. The output stands for the
    /// texture to render into.
    ///
    /// The storage pool is cleared first where it was prepared anew. Commands are then recorded one
    /// by one; what is downloaded or freed waits until the work has completed.
    pub fn run_recording(&mut self, outcome: DrainOutcome, output: Option<(u64, GpuTexture)>) -> (start: Started)
        requires
            !old(self).surface_frame_in_flight ==> old(self).drains(outcome),
        ensures
            old(self).started_after(*final(self), outcome, output, false, start),
    {
        self.start_recording(outcome, output, false)
    }

    /// Starts a recording to a swapchain frame. The frame has to be presented before any other work.
    pub fn run_recording_to_frame(&mut self, outcome: DrainOutcome, output_id: u64, texture: GpuTexture) -> (start:
        Started)
        requires
            !old(self).surface_frame_in_flight ==> old(self).drains(outcome),
        ensures
            old(self).started_after(*final(self), outcome, Some((output_id, texture)), true, start),
    {
        self.start_recording(outcome, Some((output_id, texture)), true)
    }

    /// The recording has ended, and what it downloads and frees waits for its work.
    pub open spec fn finished(self, next: GoldyEngine, recorder: Recorder, last_timeline: Option<u64>) -> bool {
        next == (GoldyEngine {
            prev_frame_timeline: if recorder.surface {
                self.prev_frame_timeline
            } else {
                last_timeline
            },
            surface_frame_in_flight: recorder.surface,
            prev_pending_downloads: recorder.pending_downloads,
            prev_deferred_free_buffers: recorder.free_buffers,
            prev_deferred_free_images: recorder.free_images,
            prev_output_image_id: recorder.output_image_id,
            ..self
        })
    }

    /// Ends a recording whose last graph has been handed to the GPU.
    pub fn finish_recording(&mut self, recorder: Recorder, last_timeline: Option<u64>)
        ensures
            old(self).finished(*final(self), recorder, last_timeline),
    {
        if recorder.surface {
            self.surface_frame_in_flight = true;
        } else {
            self.prev_frame_timeline = last_timeline;
            self.surface_frame_in_flight = false;
        }
        self.prev_pending_downloads = recorder.pending_downloads;
        self.prev_deferred_free_buffers = recorder.free_buffers;
        self.prev_deferred_free_images = recorder.free_images;
        self.prev_output_image_id = recorder.output_image_id;
    }

    /// The bytes of a buffer that was downloaded.
    pub fn get_download(&self, buf: BufferProxy) -> (data: Option<&[u8]>)
        ensures
            match data {
                Some(d) => self.downloads@.dom().contains(buf.id) && d@ == self.downloads@[buf.id]@,
                None => !self.downloads@.dom().contains(buf.id),
            },
    {
        match self.downloads.get(&buf.id) {
            Some(bytes) => Some(bytes.as_slice()),
            None => None,
        }
    }

    /// Reads the counters out of a buffer that was downloaded.
    pub fn read_bump_allocators(&self, proxy: &BufferProxy) -> (r: Result<BumpAllocators, Error>)
        requires
            self.downloads@.dom().contains(proxy.id) ==> self.downloads@[proxy.id]@.len() == 36,
        ensures
            match r {
                Ok(bump) => self.downloads@.dom().contains(proxy.id) && is_bump_of(bump, self.downloads@[proxy.id]@),
                Err(e) => !self.downloads@.dom().contains(proxy.id) && (e matches Error::Shader(text) && text@
                    == "bump buffer download not available"@),
            },
    {
        match self.get_download(*proxy) {
            Some(data) => Ok(bump_from_bytes(data)),
            None => Err(Error::Shader(String::from_str("bump buffer download not available"))),
        }
    }

    /// The counters that were drained last.
    pub fn last_drained_bump(&self) -> (bump: Option<&BumpAllocators>)
        ensures
            match bump {
                Some(b) => self.last_drained_bump == Some(*b),
                None => self.last_drained_bump is None,
            },
    {
        self.last_drained_bump.as_ref()
    }

    /// Takes the counters that were drained last.
    pub fn take_last_drained_bump(&mut self) -> (bump: Option<BumpAllocators>)
        ensures
            bump == old(self).last_drained_bump,
            *final(self) == (GoldyEngine { last_drained_bump: None, ..*old(self) }),
    {
        self.last_drained_bump.take()
    }

    /// What has to be done about the storage pool for that many bytes.
    pub open spec fn pool_step_for(self, software: bool, pool_size: u64) -> PoolStep {
        if software {
            PoolStep::Skip
        } else {
            match self.storage_pool {
                Some(capacity) if capacity >= pool_size => PoolStep::Reset,
                _ => PoolStep::Renew,
            }
        }
    }

    /// What has to be done about the storage pool for that many bytes.
    pub fn pool_step(&self, software: bool, pool_size: u64) -> (step: PoolStep)
        ensures
            step == self.pool_step_for(software, pool_size),
    {
        if !use_pool(software) {
            return PoolStep::Skip;
        }
        match self.storage_pool {
            Some(capacity) => if capacity < pool_size {
                PoolStep::Renew
            } else {
                PoolStep::Reset
            },
            None => PoolStep::Renew,
        }
    }

    /// Prepares the storage pool for a recording. A new pool comes with its capacity; the old one is
    /// gone by then, whether or not there is a new one.
    pub fn prepare_storage_pool(&mut self, software: bool, pool_size: u64, created: Result<u64, Error>) -> (r: Result<
        (),
        Error,
    >)
        ensures
            match old(self).pool_step_for(software, pool_size) {
                PoolStep::Skip => r is Ok && *final(self) == *old(self),
                PoolStep::Reset => r is Ok && *final(self) == (GoldyEngine {
                    pool_clear_in_next_submit: true,
                    ..*old(self)
                }),
                PoolStep::Renew => match created {
                    Ok(capacity) => r is Ok && *final(self) == (GoldyEngine {
                        storage_pool: Some(capacity),
                        pool_clear_in_next_submit: true,
                        ..*old(self)
                    }),
                    Err(e) => r == Err::<(), Error>(e) && *final(self) == (GoldyEngine {
                        storage_pool: None,
                        ..*old(self)
                    }),
                },
            },
            r is Ok && !software ==> final(self).storage_pool is Some && final(self).pool_clear_in_next_submit,
            r is Ok && !software && (created matches Ok(capacity) && pool_size <= capacity) ==> (
            final(self).storage_pool matches Some(capacity) && pool_size <= capacity),
            r matches Err(e) ==> created == Err::<u64, Error>(e) && final(self).storage_pool is None,
            software ==> *final(self) == *old(self),
    {
        match self.pool_step(software, pool_size) {
            PoolStep::Skip => {
                return Ok(());
            },
            PoolStep::Reset => {},
            PoolStep::Renew => {
                self.storage_pool = None;
                match created {
                    Ok(capacity) => {
                        self.storage_pool = Some(capacity);
                    },
                    Err(e) => {
                        return Err(e);
                    },
                }
            },
        }
        self.pool_clear_in_next_submit = true;
        Ok(())
    }

    /// Clears all transient resources: buffers, images, downloads and the storage pool.
    pub fn clear_transients(&mut self, outcome: DrainOutcome) -> (drained: Drained)
        requires
            !old(self).surface_frame_in_flight ==> old(self).drains(outcome),
        ensures
            exists|mid: GoldyEngine|
                {
                    &&& #[trigger] old(self).waited(mid, outcome, drained)
                    &&& match drained.result {
                        Err(_) => *final(self) == mid,
                        Ok(()) => {
                            &&& final(self).bufs@ == Map::<u64, (GpuBuffer, &'static str)>::empty()
                            &&& final(self).images@ == Map::<u64, (GpuTexture, &'static str)>::empty()
                            &&& final(self).downloads@ == Map::<u64, Vec<u8>>::empty()
                            &&& *final(self) == (GoldyEngine {
                                bufs: final(self).bufs,
                                images: final(self).images,
                                downloads: final(self).downloads,
                                storage_pool: None,
                                pool_clear_in_next_submit: false,
                                prev_output_image_id: None,
                                last_drained_bump: None,
                                ..mid
                            })
                        },
                    }
                },
            drained.result is Ok ==> {
                &&& forall|id: u64| !#[trigger] final(self).bufs@.dom().contains(id)
                &&& forall|id: u64| !#[trigger] final(self).images@.dom().contains(id)
                &&& forall|id: u64| !#[trigger] final(self).downloads@.dom().contains(id)
                &&& final(self).storage_pool is None && !final(self).pool_clear_in_next_submit
                &&& final(self).prev_output_image_id is None && final(self).last_drained_bump is None
                &&& final(self).shaders == old(self).shaders
            },
    {
        let ghost before = *self;
        let drained: Drained = self.wait_until_gpu_idle(outcome);
        let ghost mid = *self;
        assert(before.waited(mid, outcome, drained));
        if drained.result.is_err() {
            return drained;
        }
        self.pool_clear_in_next_submit = false;
        self.prev_output_image_id = None;
        self.last_drained_bump = None;
        self.bufs.clear();
        self.images.clear();
        self.downloads.clear();
        self.storage_pool = None;
        drained
    }

    /// Releases the storage pool and transient buffers to free GPU memory. Images stay.
    pub fn release_pool(&mut self, outcome: DrainOutcome) -> (drained: Drained)
        requires
            !old(self).surface_frame_in_flight ==> old(self).drains(outcome),
        ensures
            exists|mid: GoldyEngine|
                {
                    &&& #[trigger] old(self).waited(mid, outcome, drained)
                    &&& match drained.result {
                        Err(_) => *final(self) == mid,
                        Ok(()) => {
                            &&& final(self).bufs@ == Map::<u64, (GpuBuffer, &'static str)>::empty()
                            &&& final(self).downloads@ == Map::<u64, Vec<u8>>::empty()
                            &&& *final(self) == (GoldyEngine {
                                bufs: final(self).bufs,
                                downloads: final(self).downloads,
                                storage_pool: None,
                                ..mid
                            })
                        },
                    }
                },
            drained.result is Ok ==> {
                &&& forall|id: u64| !#[trigger] final(self).bufs@.dom().contains(id)
                &&& forall|id: u64| !#[trigger] final(self).downloads@.dom().contains(id)
                &&& final(self).storage_pool is None
                &&& final(self).shaders == old(self).shaders
            },
    {
        let ghost before = *self;
        let drained: Drained = self.wait_until_gpu_idle(outcome);
        let ghost mid = *self;
        assert(before.waited(mid, outcome, drained));
        if drained.result.is_err() {
            return drained;
        }
        self.bufs.clear();
        self.downloads.clear();
        self.storage_pool = None;
        drained
    }
}

proof fn lemma_without<V>(m: Map<u64, V>, ids: Seq<u64>, n: int)
    requires
        0 <= n <= ids.len(),
    ensures
        forall|id: u64| #[trigger]
            without(m, ids, n).dom().contains(id) <==> m.dom().contains(id) && !ids.take(n).contains(id),
    decreases n,
{
    if n > 0 {
        lemma_without(m, ids, n - 1);
        let head = ids.take(n - 1);
        assert(ids.take(n) =~= head.push(ids[n - 1]));
        assert forall|id: u64| #[trigger]
            without(m, ids, n).dom().contains(id) <==> m.dom().contains(id) && !ids.take(n).contains(id) by {
            assert(without(m, ids, n - 1).dom().contains(id) <==> m.dom().contains(id) && !head.contains(id));
            if head.contains(id) {
                let k = choose|k: int| 0 <= k < head.len() && head[k] == id;
                assert(ids.take(n)[k] == id);
            }
            if ids.take(n).contains(id) {
                let k = choose|k: int| 0 <= k < n && ids.take(n)[k] == id;
                if k < n - 1 {
                    assert(head[k] == id);
                }
            }
            assert(ids.take(n)[n - 1] == ids[n - 1]);
        }
    } else {
        assert(ids.take(0).len() == 0);
    }
}

/// Once a recording has been drained, even after a fault, nothing that it freed is left on the GPU,
/// and all other buffers still are.
pub proof fn freed_resources_are_gone(
    engine: GoldyEngine,
    finished: GoldyEngine,
    next: GoldyEngine,
    recorder: Recorder,
    timeline: u64,
    outcome: DrainOutcome,
    drained: Drained,
)
    requires
        !recorder.surface,
        engine.finished(finished, recorder, Some(timeline)),
        finished.drained(next, outcome, drained),
        outcome.wait is Ok ==> outcome.read_failed is None,
    ensures
        forall|id: u64| #[trigger]
            next.bufs@.dom().contains(id) <==> engine.bufs@.dom().contains(id) && !recorder.free_buffers@.contains(id),
        forall|id: u64| recorder.free_images@.contains(id) ==> !#[trigger] next.images@.dom().contains(id),
        recorder.output_image_id matches Some(id) ==> !next.images@.dom().contains(id),
{
    let bufs = recorder.free_buffers@;
    let images = recorder.free_images@;
    lemma_without(engine.bufs@, bufs, bufs.len() as int);
    lemma_without(engine.images@, images, images.len() as int);
    assert(bufs.take(bufs.len() as int) =~= bufs);
    assert(images.take(images.len() as int) =~= images);
}

/// A recording that went to a swapchain frame holds up any other one until the frame has been
/// presented.
pub proof fn open_frame_blocks_recordings(
    engine: GoldyEngine,
    finished: GoldyEngine,
    next: GoldyEngine,
    recorder: Recorder,
    last_timeline: Option<u64>,
    outcome: DrainOutcome,
    output: Option<(u64, GpuTexture)>,
    surface: bool,
    start: Started,
)
    requires
        recorder.surface,
        engine.finished(finished, recorder, last_timeline),
        finished.started_after(next, outcome, output, surface, start),
    ensures
        start.recorder is Err,
        next == finished,
{
}

} // verus!
