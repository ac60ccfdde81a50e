//! What a recording comes to on the GPU: what is written, cleared, bound, read back and freed.

use crate::config::BumpAllocators;
use crate::goldy_engine::{
    freed_textures, image_access, readable, reads_of, stride_of, without, BufferMap, BufferProxy, Command,
    DataAccess, Demand, DrainOutcome, Drained, GoldyEngine, GpuTexture, GraphOp, ImageMap, ImageProxy, NodeBinding,
    PoolStep, Present, ReadBack, Recorded, Recorder, ResourceProxy, Started, Supplied, Supply, Want,
};
use crate::goldy_renderer::{bump_of, is_bump_of};
use crate::image::ImageData;
use crate::pixels::word_at;
use crate::resource_proxy::{BindType, NodeAccess, ShaderId};
use crate::Error;
use vstd::prelude::*;

verus! {

broadcast use vstd::std_specs::hash::group_hash_axioms;

/// No buffer but this one has changed, and no image.
pub open spec fn others_stay(engine: GoldyEngine, next: GoldyEngine, id: u64) -> bool {
    &&& next.images@ == engine.images@
    &&& next.bufs@.dom() == engine.bufs@.dom().insert(id)
    &&& forall|other: u64| other != id && engine.bufs@.dom().contains(other) ==> #[trigger] next.bufs@[other]
        == engine.bufs@[other]
}

/// An upload is written to the buffer that later commands find under its name. That buffer can be written
/// again and has the flags that were asked for; one that was there already is large enough, and is kept where
/// it will do. A failed upload changes nothing.
pub proof fn uploads_reach_their_buffer(
    engine: GoldyEngine,
    next: GoldyEngine,
    rec: Recorder,
    rec_next: Recorder,
    proxy: BufferProxy,
    bytes: Vec<u8>,
    supplied: Supplied,
    all_uav: bool,
    r: Result<Recorded, Error>,
)
    requires
        engine.recorded(next, rec, rec_next, Command::Upload(proxy, bytes), supplied, all_uav, r),
        supplied.covers(engine.demands_of(Command::Upload(proxy, bytes)).len()),
    ensures
        match r {
            Ok(recorded) => {
                let buf = next.bufs@[proxy.id].0;
                &&& others_stay(engine, next, proxy.id)
                &&& recorded.dispatch is None
                &&& recorded.ops@ == seq![GraphOp::WriteBuffer { handle: buf.handle }]
                &&& !rec_next.graph_empty
                &&& buf.owned && buf.access == DataAccess::Scattered && buf.flags == proxy.buffer_flags
                &&& supplied.got@.len() == 0 ==> buf.size >= bytes@.len() && next.bufs@ == engine.bufs@
                &&& supplied.got@.len() > 0 ==> buf.handle == supplied.got@[0].handle && buf.size
                    == supplied.got@[0].size && buf.index == supplied.got@[0].index && buf.srv_index
                    == supplied.got@[0].srv_index
                &&& engine.bufs@.dom().contains(proxy.id) && next.bufs@[proxy.id] != engine.bufs@[proxy.id] ==> {
                    let was = engine.bufs@[proxy.id].0;
                    !was.owned || was.size < bytes@.len() || was.access is Broadcast || was.flags != proxy.buffer_flags
                }
            },
            Err(e) => next == engine && rec_next == rec && supplied.failed == Some(e),
        },
        rec_next.pending_downloads == rec.pending_downloads,
        rec_next.free_buffers == rec.free_buffers,
        rec_next.free_images == rec.free_images,
        rec_next.dispatch_count == rec.dispatch_count,
{
    if r is Ok {
        assert(next.bufs@.dom() =~= engine.bufs@.dom().insert(proxy.id));
    }
}

/// A uniform that is written in place is written after all that reads its old value: what was recorded before is
/// submitted first. A new one is a uniform buffer, which holds its bytes from the start.
pub proof fn uniforms_are_written_in_order(
    engine: GoldyEngine,
    next: GoldyEngine,
    rec: Recorder,
    rec_next: Recorder,
    proxy: BufferProxy,
    bytes: Vec<u8>,
    supplied: Supplied,
    all_uav: bool,
    r: Result<Recorded, Error>,
)
    requires
        engine.recorded(next, rec, rec_next, Command::UploadUniform(proxy, bytes), supplied, all_uav, r),
    ensures
        match r {
            Ok(recorded) => {
                let buf = next.bufs@[proxy.id].0;
                &&& others_stay(engine, next, proxy.id)
                &&& recorded.dispatch is None
                &&& buf.owned && buf.access == DataAccess::Broadcast
                &&& if recorded.ops@.len() > 0 {
                    &&& recorded.ops@.last() == GraphOp::WriteNow { handle: buf.handle }
                    &&& recorded.ops@.len() == (if rec.graph_empty {
                        1int
                    } else {
                        2
                    })
                    &&& !rec.graph_empty ==> recorded.ops@[0] == GraphOp::Submit
                    &&& rec_next.graph_empty
                    &&& buf.size >= bytes@.len()
                    &&& next.bufs@[proxy.id] == engine.bufs@[proxy.id]
                } else {
                    &&& rec_next.graph_empty == rec.graph_empty
                    &&& buf.handle == supplied.got@[0].handle
                    &&& buf.size == supplied.got@[0].size
                }
            },
            Err(e) => next == engine && rec_next == rec && supplied.failed == Some(e),
        },
{
    if r is Ok {
        assert(next.bufs@.dom() =~= engine.bufs@.dom().insert(proxy.id));
    }
}

/// Pixels are written to the texture that later commands find under the name, at the place that the command
/// gives, in the size of the image. A texture that is there is not replaced.
pub proof fn pixels_reach_their_texture(
    engine: GoldyEngine,
    next: GoldyEngine,
    rec: Recorder,
    rec_next: Recorder,
    proxy: ImageProxy,
    at: [u32; 2],
    image: ImageData,
    pixels: Vec<u8>,
    supplied: Supplied,
    all_uav: bool,
    r: Result<Recorded, Error>,
)
    requires
        engine.recorded(next, rec, rec_next, Command::WriteImage(proxy, at, image, pixels), supplied, all_uav, r),
    ensures
        match r {
            Ok(recorded) => {
                &&& next.bufs@ == engine.bufs@
                &&& next.images@.dom().contains(proxy.id)
                &&& recorded.dispatch is None
                &&& recorded.ops@.len() == 1
                &&& recorded.ops@[0] matches GraphOp::WriteRegion { handle, x, y, width, height } && {
                    &&& handle == next.images@[proxy.id].0.handle
                    &&& x == at@[0] && y == at@[1]
                    &&& width == image.width && height == image.height
                }
                &&& !rec_next.graph_empty
                &&& engine.images@.dom().contains(proxy.id) ==> next.images@ == engine.images@
            },
            Err(e) => next == engine && rec_next == rec && supplied.failed == Some(e) && !engine.images@.dom().contains(
                proxy.id,
            ),
        },
{
}

/// An image that is uploaded is found under its name from then on.
pub proof fn uploaded_images_are_found(
    engine: GoldyEngine,
    next: GoldyEngine,
    rec: Recorder,
    rec_next: Recorder,
    proxy: ImageProxy,
    pixels: Vec<u8>,
    supplied: Supplied,
    all_uav: bool,
    r: Result<Recorded, Error>,
)
    requires
        engine.recorded(next, rec, rec_next, Command::UploadImage(proxy, pixels), supplied, all_uav, r),
    ensures
        r is Ok <==> supplied.failed is None,
        r is Err ==> next == engine && rec_next == rec,
        r matches Ok(recorded) ==> {
            &&& next.images@.dom().contains(proxy.id)
            &&& next.images@[proxy.id].0.handle == supplied.got@[0].handle
            &&& next.images@[proxy.id].0.index == supplied.got@[0].index
            &&& recorded.ops@.len() == 0 && recorded.dispatch is None
            &&& !rec_next.graph_empty
            &&& next.bufs@ == engine.bufs@
        },
{
}

/// A clear covers the bytes that the command names: as many as it says, or all to the end of the buffer.
pub proof fn clears_cover_their_bytes(
    engine: GoldyEngine,
    next: GoldyEngine,
    rec: Recorder,
    rec_next: Recorder,
    proxy: BufferProxy,
    off: u64,
    size: Option<u64>,
    supplied: Supplied,
    all_uav: bool,
    r: Result<Recorded, Error>,
)
    requires
        engine.recorded(next, rec, rec_next, Command::Clear(proxy, off, size), supplied, all_uav, r),
        engine.accepts(Command::Clear(proxy, off, size)),
        supplied.clears_within(Command::Clear(proxy, off, size)),
        supplied.covers(engine.demands_of(Command::Clear(proxy, off, size)).len()),
    ensures
        match r {
            Ok(recorded) => {
                let buf = next.bufs@[proxy.id].0;
                &&& others_stay(engine, next, proxy.id)
                &&& recorded.dispatch is None
                &&& recorded.ops@.len() == 1
                &&& recorded.ops@[0] matches GraphOp::ClearBuffer { handle, view, offset, size: bytes } && {
                    &&& handle == buf.handle
                    &&& view != buf.owned
                    &&& offset == off
                    &&& match size {
                        Some(n) => bytes == n,
                        None => offset + bytes == buf.size,
                    }
                }
                &&& engine.bufs@.dom().contains(proxy.id) ==> next.bufs@ == engine.bufs@
                &&& !rec_next.graph_empty
            },
            Err(e) => next == engine && rec_next == rec && supplied.failed == Some(e),
        },
{
    if r is Ok {
        assert(next.bufs@.dom() =~= engine.bufs@.dom().insert(proxy.id));
    }
}

/// What is downloaded or freed waits, in the order of the commands, and leaves no trace in the graph.
pub proof fn downloads_and_frees_wait(
    engine: GoldyEngine,
    next: GoldyEngine,
    rec: Recorder,
    rec_next: Recorder,
    command: Command,
    supplied: Supplied,
    all_uav: bool,
    r: Result<Recorded, Error>,
)
    requires
        engine.recorded(next, rec, rec_next, command, supplied, all_uav, r),
        command is Download || command is FreeBuffer || command is FreeImage || command is Draw,
    ensures
        next == engine,
        r matches Ok(recorded) && recorded.ops@.len() == 0 && recorded.dispatch is None,
        rec_next.graph_empty == rec.graph_empty,
        rec_next.dispatch_count == rec.dispatch_count,
        match command {
            Command::Download(proxy) => {
                &&& rec_next.pending_downloads@.len() == rec.pending_downloads@.len() + 1
                &&& rec_next.pending_downloads@.last() == proxy
                &&& rec_next.pending_downloads@.drop_last() == rec.pending_downloads@
                &&& rec_next.free_buffers == rec.free_buffers && rec_next.free_images == rec.free_images
            },
            Command::FreeBuffer(proxy) => {
                &&& rec_next.free_buffers@.len() == rec.free_buffers@.len() + 1
                &&& rec_next.free_buffers@.last() == proxy.id
                &&& rec_next.free_buffers@.drop_last() == rec.free_buffers@
                &&& rec_next.pending_downloads == rec.pending_downloads && rec_next.free_images == rec.free_images
            },
            Command::FreeImage(proxy) => {
                &&& rec_next.free_images@.len() == rec.free_images@.len() + 1
                &&& rec_next.free_images@.last() == proxy.id
                &&& rec_next.free_images@.drop_last() == rec.free_images@
                &&& rec_next.pending_downloads == rec.pending_downloads && rec_next.free_buffers == rec.free_buffers
            },
            _ => rec_next == rec,
        },
{
    assert(rec.pending_downloads@ =~= rec_next.pending_downloads@ || rec_next.pending_downloads@.drop_last()
        =~= rec.pending_downloads@);
    assert(rec.free_buffers@ =~= rec_next.free_buffers@ || rec_next.free_buffers@.drop_last() =~= rec.free_buffers@);
    assert(rec.free_images@ =~= rec_next.free_images@ || rec_next.free_images@.drop_last() =~= rec.free_images@);
}

/// The slot that the node gives its shader for a binding is one of the resource that stands on the GPU under
/// the binding's name: for a buffer that is only read the one for reading, unless the device has none.
pub open spec fn slot_is_of(engine: GoldyEngine, res: ResourceProxy, bind_type: BindType, all_uav: bool, slot: u32) -> bool {
    match res {
        ResourceProxy::Buffer(p) | ResourceProxy::BufferRange { proxy: p, .. } => engine.bufs@.dom().contains(p.id) && if (
        bind_type is BufReadOnly && !all_uav) {
            engine.bufs@[p.id].0.srv_index == Some(slot)
        } else {
            engine.bufs@[p.id].0.index == Some(slot)
        },
        ResourceProxy::Image(p) => engine.images@.dom().contains(p.id) && engine.images@[p.id].0.index == Some(slot),
    }
}

/// The node declares the resource of a binding, and that it may be written exactly where it is bound for that.
pub open spec fn declares(engine: GoldyEngine, res: ResourceProxy, bind_type: BindType, declared: NodeBinding) -> bool {
    let expected = if bind_type is Buffer || bind_type is Image {
        NodeAccess::ReadWrite
    } else {
        NodeAccess::Read
    };
    match res {
        ResourceProxy::Buffer(p) | ResourceProxy::BufferRange { proxy: p, .. } => match declared {
            NodeBinding::Buffer { handle, access } => engine.bufs@[p.id].0.owned && handle
                == engine.bufs@[p.id].0.handle && access == expected,
            NodeBinding::View { handle, access } => !engine.bufs@[p.id].0.owned && handle
                == engine.bufs@[p.id].0.handle && access == expected,
            NodeBinding::Texture { .. } => false,
        },
        ResourceProxy::Image(p) => declared matches NodeBinding::Texture { handle, access } && handle
            == engine.images@[p.id].0.handle && access == expected,
    }
}

/// A dispatch that is recorded runs its own shader at its own size, with a slot and a declaration for each of its
/// bindings, in their order, and with the words that it brings along. It counts as one dispatch.
pub proof fn dispatches_bind_their_resources(
    engine: GoldyEngine,
    next: GoldyEngine,
    rec: Recorder,
    rec_next: Recorder,
    shader: ShaderId,
    dims: (u32, u32, u32),
    bindings: Vec<ResourceProxy>,
    push_tail: Vec<u32>,
    supplied: Supplied,
    all_uav: bool,
    recorded: Recorded,
    k: int,
)
    requires
        engine.recorded(
            next,
            rec,
            rec_next,
            Command::Dispatch(shader, dims, bindings, push_tail),
            supplied,
            all_uav,
            Ok(recorded),
        ),
        dims.0 > 0 && dims.1 > 0 && dims.2 > 0,
        0 <= k < bindings@.len(),
        engine.shaders@[shader.0 as int]@.len() == bindings@.len(),
        rec.dispatch_count < usize::MAX,
    ensures
        recorded.dispatch matches Some(node) && {
            let types = engine.shaders@[shader.0 as int]@;
            &&& node.shader == shader.0
            &&& node.dims == dims
            &&& node.indirect is None
            &&& node.push_tail@ == push_tail@
            &&& node.indices@.len() == bindings@.len() <= 16
            &&& slot_is_of(next, bindings@[k], types[k], all_uav, node.indices@[k])
            &&& node.bindings@.len() == bindings@.len()
            &&& declares(next, bindings@[k], types[k], node.bindings@[k])
        },
        !rec_next.graph_empty,
        rec_next.dispatch_count == rec.dispatch_count + 1,
{
    let types = engine.shaders@[shader.0 as int]@;
    assert(next.index_at(bindings@, types, all_uav, k) is Some);
    lemma_declared(next, bindings@, types, all_uav, bindings@.len() as int, k);
}

proof fn lemma_declared(
    engine: GoldyEngine,
    bindings: Seq<ResourceProxy>,
    types: Seq<BindType>,
    all_uav: bool,
    n: int,
    k: int,
)
    requires
        0 <= k < n <= bindings.len(),
        types.len() == bindings.len(),
        forall|i: int| 0 <= i < bindings.len() ==> #[trigger] engine.index_at(bindings, types, all_uav, i) is Some,
    ensures
        engine.node_bindings(bindings, types, n).len() == n,
        declares(engine, bindings[k], types[k], engine.node_bindings(bindings, types, n)[k]),
    decreases n,
{
    assert(engine.index_at(bindings, types, all_uav, n - 1) is Some);
    if n > 1 {
        lemma_declared(engine, bindings, types, all_uav, n - 1, if k < n - 1 {
            k
        } else {
            n - 2
        });
    }
}

/// An indirect dispatch takes its size from the buffer of its proxy at the given offset, and declares that it
/// reads that buffer. It can only be recorded where the size stands in a buffer of its own.
pub proof fn indirect_dispatches_read_their_size(
    engine: GoldyEngine,
    next: GoldyEngine,
    rec: Recorder,
    rec_next: Recorder,
    shader: ShaderId,
    proxy: BufferProxy,
    offset: u64,
    bindings: Vec<ResourceProxy>,
    supplied: Supplied,
    all_uav: bool,
    recorded: Recorded,
)
    requires
        engine.recorded(
            next,
            rec,
            rec_next,
            Command::DispatchIndirect(shader, proxy, offset, bindings),
            supplied,
            all_uav,
            Ok(recorded),
        ),
    ensures
        recorded.dispatch is Some <==> next.bufs@[proxy.id].0.owned,
        recorded.dispatch matches Some(node) ==> {
            &&& node.shader == shader.0
            &&& node.indirect == Some((next.bufs@[proxy.id].0.handle, offset))
            &&& node.indices@.len() == bindings@.len() <= 16
            &&& node.bindings@.last() == NodeBinding::Buffer {
                handle: next.bufs@[proxy.id].0.handle,
                access: NodeAccess::Read,
            }
            &&& node.push_tail@.len() == 0
            &&& !rec_next.graph_empty
        },
        recorded.dispatch is None ==> rec_next.dispatch_count == rec.dispatch_count,
{
}

/// A dispatch without workgroups leaves no trace.
pub proof fn empty_dispatches_do_nothing(
    engine: GoldyEngine,
    next: GoldyEngine,
    rec: Recorder,
    rec_next: Recorder,
    shader: ShaderId,
    dims: (u32, u32, u32),
    bindings: Vec<ResourceProxy>,
    push_tail: Vec<u32>,
    supplied: Supplied,
    all_uav: bool,
    r: Result<Recorded, Error>,
)
    requires
        engine.recorded(
            next,
            rec,
            rec_next,
            Command::Dispatch(shader, dims, bindings, push_tail),
            supplied,
            all_uav,
            r,
        ),
        dims.0 as int * dims.1 * dims.2 == 0,
    ensures
        next == engine,
        rec_next == rec,
        r matches Ok(recorded) && recorded.ops@.len() == 0 && recorded.dispatch is None,
        engine.demands_of(Command::Dispatch(shader, dims, bindings, push_tail)).len() == 0,
{
    assert(dims.0 == 0 || dims.1 == 0 || dims.2 == 0) by (nonlinear_arith)
        requires
            dims.0 as int * dims.1 * dims.2 == 0,
    ;
}

/// A buffer that a dispatch brings along starts out clear, from its first byte to its last, unless it is a view of
/// the storage pool, which is cleared as a whole. What is on the GPU already is left alone.
pub proof fn new_buffers_start_clear(present: Present, proxy: BufferProxy, pool: bool, got: Seq<Supply>)
    requires
        0 <= present.used < got.len(),
    ensures
        ({
            let after = present.then_bound(ResourceProxy::Buffer(proxy), pool, got);
            let there = present.bufs.dom().contains(proxy.id);
            let buf = after.bufs[proxy.id].0;
            &&& there ==> after == present
            &&& !there ==> {
                &&& after.used == present.used + 1
                &&& buf.handle == got[present.used].handle
                &&& buf.size == got[present.used].size
                &&& buf.index == got[present.used].index
                &&& buf.srv_index == got[present.used].srv_index
                &&& buf.access is Scattered
                &&& after.bufs.dom() == present.bufs.dom().insert(proxy.id)
                &&& after.images == present.images
                &&& buf.owned ==> after.ops.drop_last() == present.ops && after.ops.last() == GraphOp::ClearBuffer {
                    handle: buf.handle,
                    view: false,
                    offset: 0,
                    size: proxy.size,
                }
                &&& !buf.owned ==> pool && after.ops == present.ops
                &&& !pool ==> buf.owned
            }
        }),
{
    let after = present.then_bound(ResourceProxy::Buffer(proxy), pool, got);
    if !present.bufs.dom().contains(proxy.id) {
        assert(after.bufs.dom() =~= present.bufs.dom().insert(proxy.id));
        if after.bufs[proxy.id].0.owned {
            assert(after.ops.drop_last() =~= present.ops);
        }
    }
}

/// What is asked for suits what it stands for: size, flags and element size of a buffer are those of its proxy, and
/// an image has its size and can be copied from; a storage image is written directly and others are sampled.
pub proof fn demands_suit_their_resources(proxy: BufferProxy, image: ImageProxy, bind_type: Option<BindType>, pool: bool)
    ensures
        match proxy.bound_demand(pool) {
            Demand::Buffer { size, name, stride, flags } => {
                &&& size == proxy.size && name == proxy.name && flags == proxy.buffer_flags
                &&& proxy.element_stride is Some ==> Some(stride) == proxy.element_stride
            },
            Demand::PoolView { size, stride } => {
                &&& pool
                &&& size == proxy.size
                &&& proxy.element_stride is Some ==> Some(stride) == proxy.element_stride
            },
            _ => false,
        },
        match image.demand(image_access(bind_type), true, false) {
            Demand::Texture { width, height, access, copy_src, upload, .. } => {
                &&& width == image.width && height == image.height && copy_src && !upload
                &&& access is Direct <==> (bind_type matches Some(BindType::Image(_)))
            },
            _ => false,
        },
{
}

/// Nothing is asked for that is there already, and nothing twice.
pub proof fn only_missing_resources_are_asked_for(
    engine: GoldyEngine,
    shader: ShaderId,
    dims: (u32, u32, u32),
    bindings: Vec<ResourceProxy>,
    push_tail: Vec<u32>,
)
    requires
        forall|k: int| 0 <= k < bindings@.len() ==> engine.has(#[trigger] bindings@[k]),
    ensures
        engine.demands_of(Command::Dispatch(shader, dims, bindings, push_tail)).len() == 0,
{
    lemma_nothing_wanted(engine, engine.shaders@[shader.0 as int]@, bindings@, bindings@.len() as int);
}

proof fn lemma_nothing_wanted(engine: GoldyEngine, types: Seq<BindType>, bindings: Seq<ResourceProxy>, n: int)
    requires
        0 <= n <= bindings.len(),
        forall|k: int| 0 <= k < bindings.len() ==> engine.has(#[trigger] bindings[k]),
    ensures
        engine.want().then_all(bindings, types, engine.storage_pool is Some, n) == engine.want(),
    decreases n,
{
    if n > 0 {
        lemma_nothing_wanted(engine, types, bindings, n - 1);
        assert(engine.has(bindings[n - 1]));
    }
}

/// What is uploaded or cleared is asked for in its own size, and only where the buffer that is there will not do.
pub proof fn uploads_ask_for_their_size(engine: GoldyEngine, proxy: BufferProxy, bytes: Vec<u8>, off: u64, size: Option<u64>)
    ensures
        ({
            let asked = engine.demands_of(Command::Upload(proxy, bytes));
            let there = engine.bufs@.dom().contains(proxy.id);
            let buf = engine.bufs@[proxy.id].0;
            &&& asked.len() <= 1
            &&& asked.len() == 0 <==> there && buf.owned && bytes@.len() <= buf.size && buf.access is Scattered
                && buf.flags == proxy.buffer_flags
            &&& asked.len() == 1 ==> (asked[0] matches Demand::Buffer { size, flags, .. } && size == proxy.size && flags
                == proxy.buffer_flags)
        }),
        ({
            let asked = engine.demands_of(Command::UploadUniform(proxy, bytes));
            let there = engine.bufs@.dom().contains(proxy.id);
            let buf = engine.bufs@[proxy.id].0;
            &&& asked.len() <= 1
            &&& asked.len() == 0 <==> there && buf.owned && bytes@.len() <= buf.size && buf.access is Broadcast
            &&& asked.len() == 1 ==> (asked[0] matches Demand::Uniform { size, name, .. } && size == proxy.size && name
                == proxy.name)
        }),
        ({
            let asked = engine.demands_of(Command::Clear(proxy, off, size));
            &&& asked.len() == 0 <==> engine.bufs@.dom().contains(proxy.id)
            &&& asked.len() <= 1
            &&& asked.len() == 1 ==> (asked[0] matches Demand::Buffer { size, flags, .. } && size == proxy.size && flags
                == proxy.buffer_flags)
        }),
{
}

/// An image that is uploaded gets a texture of its size with the bytes in it; one that is written to gets one that
/// can be copied from, unless it has a texture.
pub proof fn images_ask_for_their_size(
    engine: GoldyEngine,
    proxy: ImageProxy,
    at: [u32; 2],
    image: ImageData,
    pixels: Vec<u8>,
)
    ensures
        ({
            let asked = engine.demands_of(Command::UploadImage(proxy, pixels));
            &&& asked.len() == 1
            &&& asked[0] matches Demand::Texture { width, height, access, copy_src, upload, .. } && width == proxy.width
                && height == proxy.height && access is Interpolated && !copy_src && upload
        }),
        ({
            let asked = engine.demands_of(Command::WriteImage(proxy, at, image, pixels));
            &&& asked.len() == 0 <==> engine.images@.dom().contains(proxy.id)
            &&& asked.len() <= 1
            &&& asked.len() == 1 ==> (asked[0] matches Demand::Texture {
                width,
                height,
                access,
                copy_src,
                upload,
                ..
            } && width == proxy.width && height == proxy.height && access is Interpolated && copy_src && !upload)
        }),
{
}

/// The buffers that are read are those of the downloads that can be read, in their order, each with its whole size.
pub proof fn downloads_are_read_whole(bufs: BufferMap, pending: Seq<BufferProxy>, n: int, k: int)
    requires
        0 <= k < n <= pending.len(),
        readable(bufs, pending[k]),
    ensures
        ({
            let i = reads_of(bufs, pending, k).len() as int;
            &&& i < reads_of(bufs, pending, n).len()
            &&& reads_of(bufs, pending, n)[i] == (bufs[pending[k].id].0.handle, bufs[pending[k].id].0.size)
        }),
    decreases n,
{
    if k < n - 1 {
        downloads_are_read_whole(bufs, pending, n - 1, k);
    }
}

/// Draining hands each download the bytes that were read for it, unless a later download is of the same buffer. The
/// counters are taken out of the downloads and read as counters.
pub proof fn downloads_get_their_bytes(engine: GoldyEngine, next: GoldyEngine, outcome: DrainOutcome, drained: Drained, k: int)
    requires
        engine.drained(next, outcome, drained),
        engine.drains(outcome),
        engine.prev_frame_timeline is Some,
        outcome.wait is Ok && outcome.read_failed is None,
        0 <= k < engine.prev_pending_downloads@.len(),
        readable(engine.bufs@, engine.prev_pending_downloads@[k]),
        forall|j: int|
            k < j < engine.prev_pending_downloads@.len() ==> (#[trigger] engine.prev_pending_downloads@[j]).id
                != engine.prev_pending_downloads@[k].id,
    ensures
        ({
            let pending = engine.prev_pending_downloads@;
            let id = pending[k].id;
            let i = reads_of(engine.bufs@, pending, k).len() as int;
            &&& i < outcome.reads@.len()
            &&& if pending[k].name@ == "vello.bump_buf"@ {
                !next.downloads@.dom().contains(id)
            } else {
                next.downloads@.dom().contains(id) && next.downloads@[id] == outcome.reads@[i]
            }
        }),
        next.prev_frame_timeline is None,
        next.prev_pending_downloads@.len() == 0,
        drained.result is Ok,
{
    let pending = engine.prev_pending_downloads@;
    let start = ReadBack { downloads: engine.downloads@, bump: None, used: 0 };
    lemma_read_back(start, pending, engine.bufs@, outcome.reads@, pending.len() as int, k);
}

proof fn lemma_read_back(
    start: ReadBack,
    pending: Seq<BufferProxy>,
    bufs: BufferMap,
    reads: Seq<Vec<u8>>,
    n: int,
    k: int,
)
    requires
        start.used == 0,
        0 <= n <= pending.len(),
        0 <= k < pending.len(),
        reads.len() == reads_of(bufs, pending, pending.len() as int).len(),
        readable(bufs, pending[k]),
        forall|j: int| k < j < pending.len() ==> (#[trigger] pending[j]).id != pending[k].id,
    ensures
        ({
            let back = start.then_all(pending, bufs, reads, n);
            let i = reads_of(bufs, pending, k).len() as int;
            &&& back.used == reads_of(bufs, pending, n).len() <= reads.len()
            &&& i < reads.len()
            &&& k < n ==> if pending[k].name@ == "vello.bump_buf"@ {
                !back.downloads.dom().contains(pending[k].id)
            } else {
                back.downloads.dom().contains(pending[k].id) && back.downloads[pending[k].id] == reads[i]
            }
        }),
    decreases n,
{
    downloads_are_read_whole(bufs, pending, pending.len() as int, k);
    if n > 0 {
        lemma_read_back(start, pending, bufs, reads, n - 1, k);
        lemma_reads_grow(bufs, pending, n, pending.len() as int);
    }
}

proof fn lemma_reads_grow(bufs: BufferMap, pending: Seq<BufferProxy>, m: int, n: int)
    requires
        0 <= m <= n <= pending.len(),
    ensures
        reads_of(bufs, pending, m).len() <= reads_of(bufs, pending, n).len(),
    decreases n,
{
    if m < n {
        lemma_reads_grow(bufs, pending, m, n - 1);
    }
}

/// The textures of the images that were freed go back, and no others.
pub proof fn freed_images_give_their_textures_back(images: ImageMap, ids: Seq<u64>, n: int, k: int)
    requires
        0 <= k < n <= ids.len(),
    ensures
        images.dom().contains(ids[k]) ==> freed_textures(images, ids, n).contains(images[ids[k]].0.handle),
        forall|i: int|
            0 <= i < freed_textures(images, ids, n).len() ==> exists|j: int|
                0 <= j < n && images.dom().contains(#[trigger] ids[j]) && images[ids[j]].0.handle == (
                #[trigger] freed_textures(images, ids, n)[i]),
        freed_textures(images, ids, n).len() <= n,
    decreases n,
{
    lemma_left(images, ids, n - 1);
    let before = without(images, ids, n - 1);
    let earlier = freed_textures(images, ids, n - 1);
    let list = freed_textures(images, ids, n);
    let last = ids[n - 1];
    if n > 1 {
        freed_images_give_their_textures_back(images, ids, n - 1, if k < n - 1 {
            k
        } else {
            0
        });
        if images.dom().contains(last) && !before.dom().contains(last) {
            let j = choose|j: int| 0 <= j < n - 1 && ids[j] == last;
            freed_images_give_their_textures_back(images, ids, n - 1, j);
        }
    }
    assert forall|h: u64| earlier.contains(h) implies list.contains(h) by {
        let i = choose|i: int| 0 <= i < earlier.len() && earlier[i] == h;
        assert(list[i] == h);
    }
    if before.dom().contains(last) {
        assert(list.last() == images[last].0.handle);
        assert(list[list.len() - 1] == images[last].0.handle);
    }
    assert forall|i: int| 0 <= i < list.len() implies exists|j: int|
        0 <= j < n && images.dom().contains(#[trigger] ids[j]) && images[ids[j]].0.handle == (#[trigger] list[i]) by {
        if i < earlier.len() {
            assert(list[i] == earlier[i]);
            let j = choose|j: int|
                0 <= j < n - 1 && images.dom().contains(#[trigger] ids[j]) && images[ids[j]].0.handle == earlier[i];
            assert(images.dom().contains(ids[j]));
        } else {
            assert(images.dom().contains(ids[n - 1]));
        }
    }
}

proof fn lemma_left(images: ImageMap, ids: Seq<u64>, n: int)
    requires
        0 <= n <= ids.len(),
    ensures
        forall|id: u64| #[trigger]
            without(images, ids, n).dom().contains(id) ==> images.dom().contains(id) && without(images, ids, n)[id]
                == images[id],
        forall|id: u64|
            images.dom().contains(id) && !(#[trigger] without(images, ids, n).dom().contains(id)) ==> exists|j: int|
                0 <= j < n && ids[j] == id,
        freed_textures(images, ids, n).len() <= n,
    decreases n,
{
    if n > 0 {
        lemma_left(images, ids, n - 1);
        assert forall|id: u64| #[trigger] without(images, ids, n).dom().contains(id) implies images.dom().contains(id)
            && without(images, ids, n)[id] == images[id] by {
            assert(without(images, ids, n - 1).dom().contains(id));
        }
        assert forall|id: u64|
            images.dom().contains(id) && !(#[trigger] without(images, ids, n).dom().contains(id)) implies exists|j: int|
            0 <= j < n && ids[j] == id by {
            if id == ids[n - 1] {
                assert(ids[n - 1] == id);
            } else {
                assert(!without(images, ids, n - 1).dom().contains(id));
                let j = choose|j: int| 0 <= j < n - 1 && ids[j] == id;
                assert(ids[j] == id);
            }
        }
    }
}

/// A recording that has started finds its output under its name, has nothing waiting, and clears the storage pool
/// where that was prepared anew, once.
pub proof fn recordings_start_afresh(
    engine: GoldyEngine,
    next: GoldyEngine,
    outcome: DrainOutcome,
    output: Option<(u64, GpuTexture)>,
    surface: bool,
    start: Started,
)
    requires
        engine.started_after(next, outcome, output, surface, start),
    ensures
        start.recorder matches Ok(recorder) ==> {
            &&& !engine.surface_frame_in_flight
            &&& recorder.surface == surface
            &&& recorder.dispatch_count == 0
            &&& recorder.pending_downloads@.len() == 0
            &&& recorder.free_buffers@.len() == 0
            &&& recorder.free_images@.len() == 0
            &&& recorder.graph_empty <==> start.clear_pool is None
            &&& start.clear_pool is Some <==> engine.pool_clear_in_next_submit && engine.storage_pool is Some
            &&& start.clear_pool is Some ==> start.clear_pool == engine.storage_pool
            &&& !next.pool_clear_in_next_submit
            &&& next.storage_pool == engine.storage_pool
            &&& next.prev_frame_timeline is None
            &&& match output {
                Some((id, texture)) => {
                    &&& recorder.output_image_id == Some(id)
                    &&& next.images@.dom().contains(id)
                    &&& next.images@[id].0 == texture
                },
                None => recorder.output_image_id is None,
            }
        },
{
}

/// What a recording leaves behind waits for its own work: for the timeline that its last submission was given, or
/// for the swapchain frame to be presented.
pub proof fn finished_recordings_wait_for_their_work(
    engine: GoldyEngine,
    next: GoldyEngine,
    recorder: Recorder,
    last_timeline: Option<u64>,
)
    requires
        engine.finished(next, recorder, last_timeline),
    ensures
        next.surface_frame_in_flight == recorder.surface,
        !recorder.surface ==> next.prev_frame_timeline == last_timeline,
        recorder.surface ==> next.prev_frame_timeline == engine.prev_frame_timeline,
        next.prev_pending_downloads@ == recorder.pending_downloads@,
        next.prev_deferred_free_buffers@ == recorder.free_buffers@,
        next.prev_deferred_free_images@ == recorder.free_images@,
        next.prev_output_image_id == recorder.output_image_id,
        next.bufs@ == engine.bufs@,
        next.images@ == engine.images@,
        next.downloads@ == engine.downloads@,
        next.storage_pool == engine.storage_pool,
{
}

/// A storage pool is used again only where it is large enough, and software adapters have none.
pub proof fn storage_pools_are_large_enough(engine: GoldyEngine, software: bool, size: u64)
    ensures
        match engine.pool_step_for(software, size) {
            PoolStep::Skip => software,
            PoolStep::Reset => !software && (engine.storage_pool matches Some(capacity) && size <= capacity),
            PoolStep::Renew => !software && (engine.storage_pool matches Some(capacity) ==> capacity < size),
        },
{
}

/// Each counter is read from its own word of the readback.
pub proof fn counters_are_read_in_place(bump: BumpAllocators, bytes: Seq<u8>)
    requires
        is_bump_of(bump, bytes),
        bytes.len() == 36,
    ensures
        exists|big: bool|
            {
                &&& #[trigger] word_at(bytes, 0, big) == bump.failed
                &&& word_at(bytes, 1, big) == bump.binning
                &&& word_at(bytes, 2, big) == bump.ptcl
                &&& word_at(bytes, 3, big) == bump.tile
                &&& word_at(bytes, 4, big) == bump.seg_counts
                &&& word_at(bytes, 5, big) == bump.segments
                &&& word_at(bytes, 6, big) == bump.blend
                &&& word_at(bytes, 7, big) == bump.lines
                &&& word_at(bytes, 8, big) == bump.active_tiles
            },
{
    if bump == bump_of(crate::pixels::words_of(bytes, false)) {
        assert(word_at(bytes, 0, false) == bump.failed);
    } else {
        assert(word_at(bytes, 0, true) == bump.failed);
    }
}

/// The buffers of the pipeline have elements of the sizes that the shaders lay them out in.
pub proof fn buffers_have_their_element_sizes()
    ensures
        stride_of("vello.path_buf"@) == 32,
        stride_of("vello.clip_el_buf"@) == 32,
        stride_of("vello.bump_buf"@) == 32,
        stride_of("vello.segments_buf"@) == 24,
        stride_of("vello.lines_buf"@) == 24,
        stride_of("vello.path_bbox_buf"@) == 24,
        stride_of("vello.tagmonoid_buf"@) == 20,
        stride_of("vello.reduced_buf"@) == 20,
        stride_of("vello.reduced2_buf"@) == 20,
        stride_of("vello.reduced_scan_buf"@) == 20,
        stride_of("vello.draw_monoid_buf"@) == 16,
        stride_of("vello.draw_reduced_buf"@) == 16,
        stride_of("vello.draw_bbox_buf"@) == 16,
        stride_of("vello.clip_bbox_buf"@) == 16,
        stride_of("vello.indirect_dispatch"@) == 16,
        stride_of("vello.indirect_count"@) == 16,
        stride_of("vello.tile_buf"@) == 8,
        stride_of("vello.seg_counts_buf"@) == 8,
        stride_of("vello.bin_header_buf"@) == 8,
        stride_of("vello.clip_inp_buf"@) == 8,
        stride_of("vello.clip_bic_buf"@) == 8,
        stride_of("vello.config"@) == 100,
        stride_of("vello.wg_counts"@) == 320,
        stride_of("vello.scene"@) == 4,
        stride_of("vello.ptcl_buf"@) == 4,
        stride_of("vello.info_bin_data_buf"@) == 4,
{
    reveal_strlit("vello.path_buf");
    reveal_strlit("vello.clip_el_buf");
    reveal_strlit("vello.bump_buf");
    reveal_strlit("vello.segments_buf");
    reveal_strlit("vello.lines_buf");
    reveal_strlit("vello.path_bbox_buf");
    reveal_strlit("vello.tagmonoid_buf");
    reveal_strlit("vello.reduced_buf");
    reveal_strlit("vello.reduced2_buf");
    reveal_strlit("vello.reduced_scan_buf");
    reveal_strlit("vello.draw_monoid_buf");
    reveal_strlit("vello.draw_reduced_buf");
    reveal_strlit("vello.draw_bbox_buf");
    reveal_strlit("vello.clip_bbox_buf");
    reveal_strlit("vello.indirect_dispatch");
    reveal_strlit("vello.indirect_count");
    reveal_strlit("vello.tile_buf");
    reveal_strlit("vello.seg_counts_buf");
    reveal_strlit("vello.bin_header_buf");
    reveal_strlit("vello.clip_inp_buf");
    reveal_strlit("vello.clip_bic_buf");
    reveal_strlit("vello.config");
    reveal_strlit("vello.wg_counts");
    reveal_strlit("vello.scene");
    reveal_strlit("vello.ptcl_buf");
    reveal_strlit("vello.info_bin_data_buf");
    assert("vello.path_buf"@.len() == 14 && "vello.path_buf"@[8] == 't' && "vello.path_buf"@[11] == 'b');
    assert("vello.clip_el_buf"@.len() == 17 && "vello.clip_el_buf"@[8] == 'i' && "vello.clip_el_buf"@[11] == 'e');
    assert("vello.bump_buf"@.len() == 14 && "vello.bump_buf"@[8] == 'm' && "vello.bump_buf"@[11] == 'b');
    assert("vello.segments_buf"@.len() == 18 && "vello.segments_buf"@[8] == 'g' && "vello.segments_buf"@[11] == 'n');
    assert("vello.lines_buf"@.len() == 15 && "vello.lines_buf"@[8] == 'n' && "vello.lines_buf"@[11] == '_');
    assert("vello.path_bbox_buf"@.len() == 19 && "vello.path_bbox_buf"@[8] == 't' && "vello.path_bbox_buf"@[11] == 'b');
    assert("vello.tagmonoid_buf"@.len() == 19 && "vello.tagmonoid_buf"@[8] == 'g' && "vello.tagmonoid_buf"@[11] == 'n');
    assert("vello.reduced_buf"@.len() == 17 && "vello.reduced_buf"@[8] == 'd' && "vello.reduced_buf"@[11] == 'e');
    assert("vello.reduced2_buf"@.len() == 18 && "vello.reduced2_buf"@[8] == 'd' && "vello.reduced2_buf"@[11] == 'e');
    assert("vello.reduced_scan_buf"@.len() == 22 && "vello.reduced_scan_buf"@[8] == 'd' && "vello.reduced_scan_buf"@[11] == 'e');
    assert("vello.draw_monoid_buf"@.len() == 21 && "vello.draw_monoid_buf"@[8] == 'a' && "vello.draw_monoid_buf"@[11] == 'm');
    assert("vello.draw_reduced_buf"@.len() == 22 && "vello.draw_reduced_buf"@[8] == 'a' && "vello.draw_reduced_buf"@[11] == 'r');
    assert("vello.draw_bbox_buf"@.len() == 19 && "vello.draw_bbox_buf"@[8] == 'a' && "vello.draw_bbox_buf"@[11] == 'b');
    assert("vello.clip_bbox_buf"@.len() == 19 && "vello.clip_bbox_buf"@[8] == 'i' && "vello.clip_bbox_buf"@[11] == 'b');
    assert("vello.indirect_dispatch"@.len() == 23 && "vello.indirect_dispatch"@[8] == 'd' && "vello.indirect_dispatch"@[11] == 'e');
    assert("vello.indirect_count"@.len() == 20 && "vello.indirect_count"@[8] == 'd' && "vello.indirect_count"@[11] == 'e');
    assert("vello.tile_buf"@.len() == 14 && "vello.tile_buf"@[8] == 'l' && "vello.tile_buf"@[11] == 'b');
    assert("vello.seg_counts_buf"@.len() == 20 && "vello.seg_counts_buf"@[8] == 'g' && "vello.seg_counts_buf"@[11] == 'o');
    assert("vello.bin_header_buf"@.len() == 20 && "vello.bin_header_buf"@[8] == 'n' && "vello.bin_header_buf"@[11] == 'e');
    assert("vello.clip_inp_buf"@.len() == 18 && "vello.clip_inp_buf"@[8] == 'i' && "vello.clip_inp_buf"@[11] == 'i');
    assert("vello.clip_bic_buf"@.len() == 18 && "vello.clip_bic_buf"@[8] == 'i' && "vello.clip_bic_buf"@[11] == 'b');
    assert("vello.config"@.len() == 12 && "vello.config"@[8] == 'n' && "vello.config"@[11] == 'g');
    assert("vello.wg_counts"@.len() == 15 && "vello.wg_counts"@[8] == '_' && "vello.wg_counts"@[11] == 'u');
    assert("vello.scene"@.len() == 11 && "vello.scene"@[8] == 'e');
    assert("vello.ptcl_buf"@.len() == 14 && "vello.ptcl_buf"@[8] == 'c' && "vello.ptcl_buf"@[11] == 'b');
    assert("vello.info_bin_data_buf"@.len() == 23 && "vello.info_bin_data_buf"@[8] == 'f' && "vello.info_bin_data_buf"@[11] == 'b');
}

/// A buffer that is allocated from while the pipeline runs, and those whose elements are found through it, are never
/// views of the storage pool; the others are, where there is a pool.
pub proof fn pools_hold_the_other_buffers(proxy: BufferProxy)
    ensures
        proxy.name@ == "vello.bump_buf"@ ==> proxy.bound_demand(true) is Buffer,
        proxy.name@ == "vello.indirect_dispatch"@ ==> proxy.bound_demand(true) is Buffer,
        proxy.name@ == "vello.tile_buf"@ ==> proxy.bound_demand(true) is Buffer,
        proxy.name@ == "vello.lines_buf"@ ==> proxy.bound_demand(true) is Buffer,
        proxy.name@ == "vello.seg_counts_buf"@ ==> proxy.bound_demand(true) is Buffer,
        proxy.name@ == "vello.segments_buf"@ ==> proxy.bound_demand(true) is Buffer,
        proxy.name@ == "vello.path_buf"@ ==> proxy.bound_demand(true) is Buffer,
        proxy.name@ == "vello.scene"@ ==> proxy.bound_demand(true) is PoolView,
        proxy.name@ == "vello.config"@ ==> proxy.bound_demand(true) is PoolView,
        proxy.name@ == "vello.ptcl_buf"@ ==> proxy.bound_demand(true) is PoolView,
        proxy.name@ == "vello.info_bin_data_buf"@ ==> proxy.bound_demand(true) is PoolView,
        proxy.name@ == "vello.reduced_buf"@ ==> proxy.bound_demand(true) is PoolView,
        proxy.name@ == "vello.tagmonoid_buf"@ ==> proxy.bound_demand(true) is PoolView,
        proxy.name@ == "vello.path_bbox_buf"@ ==> proxy.bound_demand(true) is PoolView,
        proxy.name@ == "vello.draw_monoid_buf"@ ==> proxy.bound_demand(true) is PoolView,
        proxy.name@ == "vello.clip_inp_buf"@ ==> proxy.bound_demand(true) is PoolView,
        proxy.name@ == "vello.bin_header_buf"@ ==> proxy.bound_demand(true) is PoolView,
        proxy.bound_demand(false) is Buffer,
{
    reveal_strlit("vello.bump_buf");
    reveal_strlit("vello.indirect_dispatch");
    reveal_strlit("vello.tile_buf");
    reveal_strlit("vello.lines_buf");
    reveal_strlit("vello.seg_counts_buf");
    reveal_strlit("vello.segments_buf");
    reveal_strlit("vello.path_buf");
    reveal_strlit("vello.scene");
    reveal_strlit("vello.config");
    reveal_strlit("vello.ptcl_buf");
    reveal_strlit("vello.info_bin_data_buf");
    reveal_strlit("vello.reduced_buf");
    reveal_strlit("vello.tagmonoid_buf");
    reveal_strlit("vello.path_bbox_buf");
    reveal_strlit("vello.draw_monoid_buf");
    reveal_strlit("vello.clip_inp_buf");
    reveal_strlit("vello.bin_header_buf");
    assert("vello.bump_buf"@.len() == 14 && "vello.bump_buf"@[8] == 'm');
    assert("vello.indirect_dispatch"@.len() == 23 && "vello.indirect_dispatch"@[8] == 'd');
    assert("vello.tile_buf"@.len() == 14 && "vello.tile_buf"@[8] == 'l');
    assert("vello.lines_buf"@.len() == 15 && "vello.lines_buf"@[8] == 'n');
    assert("vello.seg_counts_buf"@.len() == 20 && "vello.seg_counts_buf"@[8] == 'g');
    assert("vello.segments_buf"@.len() == 18 && "vello.segments_buf"@[8] == 'g');
    assert("vello.path_buf"@.len() == 14 && "vello.path_buf"@[8] == 't');
    assert("vello.scene"@.len() == 11 && "vello.scene"@[8] == 'e');
    assert("vello.config"@.len() == 12 && "vello.config"@[8] == 'n');
    assert("vello.ptcl_buf"@.len() == 14 && "vello.ptcl_buf"@[8] == 'c');
    assert("vello.info_bin_data_buf"@.len() == 23 && "vello.info_bin_data_buf"@[8] == 'f');
    assert("vello.reduced_buf"@.len() == 17 && "vello.reduced_buf"@[8] == 'd');
    assert("vello.tagmonoid_buf"@.len() == 19 && "vello.tagmonoid_buf"@[8] == 'g');
    assert("vello.path_bbox_buf"@.len() == 19 && "vello.path_bbox_buf"@[8] == 't');
    assert("vello.draw_monoid_buf"@.len() == 21 && "vello.draw_monoid_buf"@[8] == 'a');
    assert("vello.clip_inp_buf"@.len() == 18 && "vello.clip_inp_buf"@[8] == 'i');
    assert("vello.bin_header_buf"@.len() == 20 && "vello.bin_header_buf"@[8] == 'n');
}

/// An image that a dispatch brings along is found under its name from then on, and is not cleared.
pub proof fn new_images_are_found(present: Present, proxy: ImageProxy, pool: bool, got: Seq<Supply>)
    requires
        0 <= present.used < got.len(),
    ensures
        ({
            let after = present.then_bound(ResourceProxy::Image(proxy), pool, got);
            &&& present.images.dom().contains(proxy.id) ==> after == present
            &&& !present.images.dom().contains(proxy.id) ==> {
                &&& after.used == present.used + 1
                &&& after.images.dom().contains(proxy.id)
                &&& after.images[proxy.id].0.handle == got[present.used].handle
                &&& after.images[proxy.id].0.index == got[present.used].index
                &&& after.bufs == present.bufs
                &&& after.ops == present.ops
            }
        }),
{
}

/// A resource that is missing is asked for once, however often it is bound.
pub proof fn missing_resources_are_asked_for_once(
    want: Want,
    res: ResourceProxy,
    first: Option<BindType>,
    second: Option<BindType>,
    pool: bool,
)
    ensures
        ({
            let after = want.then_bound(res, first, pool);
            let there = match res {
                ResourceProxy::Buffer(p) | ResourceProxy::BufferRange { proxy: p, .. } => want.bufs.contains(p.id),
                ResourceProxy::Image(p) => want.images.contains(p.id),
            };
            &&& after.then_bound(res, second, pool) == after
            &&& there ==> after == want
            &&& !there ==> after.demands.drop_last() == want.demands && after.demands.len() == want.demands.len() + 1
            &&& !there ==> match res {
                ResourceProxy::Buffer(p) | ResourceProxy::BufferRange { proxy: p, .. } => after.demands.last()
                    == p.bound_demand(pool),
                ResourceProxy::Image(p) => after.demands.last() matches Demand::Texture { width, height, .. } && width
                    == p.width && height == p.height,
            }
        }),
{
    let after = want.then_bound(res, first, pool);
    if after.demands.len() > want.demands.len() {
        assert(after.demands.drop_last() =~= want.demands);
    }
}

} // verus!
