//! Live GPU textures: mailbox ring and stable sample mirror.
//!
//! Producers write a ring slot; once that work has settled, the slot becomes the front, which is
//! copied into a sample texture of its own. Textures and submissions are named by handles.

use crate::image::{ImageAlphaType, ImageData};
use crate::math::{max_int, max_u32};
use crate::resource_proxy::{ImageFormat, TextureFlags, TextureFormat, TextureKind, TextureRequest};
use crate::text::{decimal, decimal_of};
use crate::Error;
use std::collections::HashMap;
use vstd::prelude::*;
use vstd::string::*;

verus! {

broadcast use vstd::std_specs::hash::group_hash_axioms;

/// Opaque id for a live-texture mailbox entry.
#[derive(Clone, Copy, Debug, PartialEq, Eq, Hash, Structural)]
pub struct LiveTextureId(pub u64);

impl LiveTextureId {
    pub fn to_raw(self) -> (raw: u64)
        ensures
            raw == self.0,
    {
        self.0
    }
}

/// A texture of the ring.
#[derive(Clone, Copy, Debug, PartialEq, Eq)]
pub struct Slot {
    pub texture: u64,
    /// Work on the texture that has not settled yet.
    pub pending: Option<u64>,
    /// A producer holds the slot.
    pub reserved: bool,
    /// Number of the last publication into the slot.
    pub seq: u64,
}

/// A mailbox.
pub struct LiveEntry {
    pub width: u32,
    pub height: u32,
    /// Identity used in scenes: an image without pixels of its own.
    pub image: ImageData,
    pub slots: Vec<Slot>,
    /// The slot that was published last.
    pub front: Option<usize>,
    pub next_seq: u64,
    pub front_seq: u64,
    /// Stable mirror that is sampled (full-texture copy of the current front).
    pub sample: u64,
}

impl LiveEntry {
    /// The front is one of the slots, and a slot with work that has not settled is held.
    pub open spec fn wf(self) -> bool {
        &&& self.front matches Some(i) ==> i < self.slots@.len()
        &&& forall|i: int|
            0 <= i < self.slots@.len() ==> ((#[trigger] self.slots@[i]).pending is Some ==> self.slots@[i].reserved)
    }

    /// A producer can be given the slot.
    pub open spec fn is_free(self, slot: int) -> bool {
        &&& 0 <= slot < self.slots@.len()
        &&& self.front != Some(slot as usize)
        &&& !self.slots@[slot].reserved
        &&& self.slots@[slot].pending is None
    }
}

/// Mailboxes of live GPU textures for one renderer.
pub struct LiveTextureExchange {
    pub depth: usize,
    /// The mailboxes by their ids.
    pub entries: HashMap<u64, LiveEntry>,
    /// The mailbox behind each image.
    pub blob_to_id: HashMap<u64, LiveTextureId>,
    pub next_id: u64,
    /// Publishes dropped because every non-front slot was in flight.
    pub dropped_publishes: u64,
}

/// The work on a slot has settled.
pub open spec fn is_settled(slot: Slot, settled: Seq<u64>) -> bool {
    slot.pending matches Some(work) && settled.contains(work)
}

/// A slot after its settled work has been taken note of.
pub open spec fn slot_after(slot: Slot, settled: Seq<u64>) -> Slot {
    if is_settled(slot, settled) {
        Slot { pending: None, reserved: false, ..slot }
    } else {
        slot
    }
}

/// The front and its number after the first `n` slots: a slot that has settled becomes the front
/// unless a later publication is the front already.
pub open spec fn front_after(entry: LiveEntry, settled: Seq<u64>, n: int) -> (Option<usize>, u64)
    decreases n,
{
    if n <= 0 {
        (entry.front, entry.front_seq)
    } else {
        let (front, seq) = front_after(entry, settled, n - 1);
        let slot = entry.slots@[n - 1];
        if is_settled(slot, settled) && slot.seq >= seq {
            (Some((n - 1) as usize), slot.seq)
        } else {
            (front, seq)
        }
    }
}

/// `after` is the mailbox after its settled work has been taken note of.
pub open spec fn entry_polled(before: LiveEntry, after: LiveEntry, settled: Seq<u64>) -> bool {
    let n = before.slots@.len() as int;
    &&& after.slots@ == before.slots@.map_values(|s: Slot| slot_after(s, settled))
    &&& (after.front, after.front_seq) == front_after(before, settled, n)
    &&& after == (LiveEntry {
        slots: after.slots,
        front: after.front,
        front_seq: after.front_seq,
        ..before
    })
}

/// The front is the newest of what was the front and what has settled, and it is a settled slot
/// or the old front.
pub proof fn newest_settled_wins(entry: LiveEntry, settled: Seq<u64>, n: int)
    requires
        0 <= n <= entry.slots@.len(),
    ensures
        front_after(entry, settled, n).1 >= entry.front_seq,
        forall|i: int|
            0 <= i < n && is_settled(#[trigger] entry.slots@[i], settled) ==> front_after(entry, settled, n).1
                >= entry.slots@[i].seq,
        front_after(entry, settled, n) == (entry.front, entry.front_seq) || (front_after(entry, settled, n).0 matches Some(
            f,
        ) && f < n && is_settled(entry.slots@[f as int], settled) && front_after(entry, settled, n).1
            == entry.slots@[f as int].seq),
    decreases n,
{
    if n > 0 {
        newest_settled_wins(entry, settled, n - 1);
        assert(entry.slots.len() == entry.slots@.len());
    }
}

fn contains_work(settled: &[u64], work: u64) -> (b: bool)
    ensures
        b == settled@.contains(work),
{
    let mut i: usize = 0;
    while i < settled.len()
        invariant
            i <= settled.len(),
            forall|k: int| 0 <= k < i ==> settled@[k] != work,
        decreases settled.len() - i,
    {
        if settled[i] == work {
            assert(settled@[i as int] == work);
            return true;
        }
        i = i + 1;
    }
    false
}

impl LiveEntry {
    /// Takes note of the work that has settled.
    fn poll(&mut self, settled: &[u64])
        requires
            old(self).wf(),
        ensures
            final(self).wf(),
            entry_polled(*old(self), *final(self), settled@),
    {
        let ghost before = *self;
        let n: usize = self.slots.len();
        let mut i: usize = 0;
        while i < n
            invariant
                before.wf(),
                n == before.slots@.len(),
                self.slots@.len() == n,
                i <= n,
                *self == (LiveEntry {
                    slots: self.slots,
                    front: self.front,
                    front_seq: self.front_seq,
                    ..before
                }),
                (self.front, self.front_seq) == front_after(before, settled@, i as int),
                self.front matches Some(f) ==> f < n,
                forall|k: int|
                    0 <= k < n ==> (#[trigger] self.slots@[k]) == (if k < i {
                        slot_after(before.slots@[k], settled@)
                    } else {
                        before.slots@[k]
                    }),
            decreases n - i,
        {
            let slot: Slot = self.slots[i];
            if let Some(work) = slot.pending {
                if contains_work(settled, work) {
                    self.slots.set(i, Slot { pending: None, reserved: false, ..slot });
                    if slot.seq >= self.front_seq {
                        self.front = Some(i);
                        self.front_seq = slot.seq;
                    }
                }
            }
            i = i + 1;
        }
        assert(self.slots@ =~= before.slots@.map_values(|s: Slot| slot_after(s, settled@)));
    }

    /// The first slot that a producer can be given.
    fn find_free(&self) -> (slot: Option<usize>)
        ensures
            match slot {
                Some(i) => self.is_free(i as int) && forall|k: int| 0 <= k < i ==> !self.is_free(k),
                None => forall|k: int| !self.is_free(k),
            },
    {
        let mut i: usize = 0;
        while i < self.slots.len()
            invariant
                i <= self.slots.len(),
                forall|k: int| 0 <= k < i ==> !self.is_free(k),
            decreases self.slots.len() - i,
        {
            let is_front: bool = match self.front {
                Some(f) => f == i,
                None => false,
            };
            if !is_front && !self.slots[i].reserved && self.slots[i].pending.is_none() {
                return Some(i);
            }
            i = i + 1;
        }
        None
    }
}

/// A mailbox that is to be set up: its id and size, and how many textures it needs, the last of which
/// is the sample mirror.
#[derive(Clone, Copy, Debug, PartialEq, Eq, Structural)]
pub struct LiveRequest {
    pub id: LiveTextureId,
    pub width: u32,
    pub height: u32,
    pub textures: usize,
}

impl LiveRequest {
    /// Each of the textures. A sample mirror is read by shaders and also copied back to the host.
    pub fn texture(&self) -> (request: TextureRequest)
        ensures
            request == TextureRequest::target(
                self.width,
                self.height,
                TextureFormat::Rgba8Unorm,
                TextureKind::DirectInterpolated,
            ),
            request.width == self.width && request.height == self.height,
            request.flags.copy_dst && request.flags.copy_src,
    {
        TextureRequest {
            width: self.width,
            height: self.height,
            format: TextureFormat::Rgba8Unorm,
            kind: TextureKind::DirectInterpolated,
            flags: TextureFlags { copy_dst: true, copy_src: true },
        }
    }
}

/// What a mailbox leaves behind: work to wait for, and textures to release.
#[derive(Debug)]
pub struct FreedEntry {
    pub waits: Vec<u64>,
    pub textures: Vec<u64>,
}

/// The work that has not settled, slot by slot.
pub open spec fn pending_work(slots: Seq<Slot>) -> Seq<u64>
    decreases slots.len(),
{
    if slots.len() == 0 {
        seq![]
    } else {
        let before = pending_work(slots.drop_last());
        match slots.last().pending {
            Some(work) => before.push(work),
            None => before,
        }
    }
}

/// Why a mailbox was not found.
pub open spec fn unknown_id_text(id: LiveTextureId) -> Seq<char> {
    "LiveTextureExchange: unknown id LiveTextureId("@ + decimal_of(id.0 as nat) + ")"@
}

fn unknown_id(id: LiveTextureId) -> (e: Error)
    ensures
        e matches Error::Gpu(text) && text@ == unknown_id_text(id),
{
    let mut text: String = String::from_str("LiveTextureExchange: unknown id LiveTextureId(");
    let number: String = decimal(id.0);
    text.append(number.as_str());
    text.append(")");
    Error::Gpu(text)
}

/// What is wrong with a slot.
pub open spec fn slot_text(before: &str, slot: usize, after: &str) -> Seq<char> {
    before@ + decimal_of(slot as nat) + after@
}

fn slot_error(before: &str, slot: usize, after: &str) -> (e: Error)
    ensures
        e matches Error::Gpu(text) && text@ == slot_text(before, slot, after),
{
    let mut text: String = String::from_str(before);
    let number: String = decimal(slot as u64);
    text.append(number.as_str());
    text.append(after);
    Error::Gpu(text)
}

/// The keys of a map, each once.
fn list_keys<V>(map: &HashMap<u64, V>) -> (keys: Vec<u64>)
    ensures
        keys@.no_duplicates(),
        keys@.to_set() == map@.dom(),
{
    let mut keys: Vec<u64> = Vec::new();
    for key in it: map.keys()
        invariant
            keys@.len() == it.index(),
            it.seq().no_duplicates(),
            it.seq().unref().to_set() == map@.dom(),
            forall|i: int| 0 <= i < keys@.len() ==> #[trigger] keys@[i] == *it.seq()[i],
            keys@.len() == it.seq().len() ==> keys@ == it.seq().unref(),
    {
        keys.push(*key);
        assert(keys@.len() == it.seq().len() ==> keys@ =~= it.seq().unref());
    }
    keys
}

impl LiveTextureExchange {
    /// Each mailbox is well formed.
    pub open spec fn wf(self) -> bool {
        forall|k: u64| #[trigger] self.entries@.dom().contains(k) ==> self.entries@[k].wf()
    }

    /// A mailbox has the id.
    pub open spec fn has(self, id: LiveTextureId) -> bool {
        self.entries@.dom().contains(id.0)
    }

    /// The mailbox with the id.
    pub open spec fn entry(self, id: LiveTextureId) -> LiveEntry {
        self.entries@[id.0]
    }

    /// `next` differs from `self` in one mailbox at most.
    pub open spec fn only_entry_changed(self, next: LiveTextureExchange, id: LiveTextureId) -> bool {
        &&& next.entries@ == self.entries@.insert(id.0, next.entry(id))
        &&& next == (LiveTextureExchange { entries: next.entries, ..self })
    }

    /// An exchange without mailboxes. Rings have three slots, and two on a backend that keeps fewer
    /// frames in flight.
    pub fn new(web_gpu: bool) -> (x: Self)
        ensures
            x.wf(),
            x.depth == (if web_gpu {
                2usize
            } else {
                3
            }),
            x.entries@ == Map::<u64, LiveEntry>::empty(),
            x.blob_to_id@ == Map::<u64, LiveTextureId>::empty(),
            x.next_id == 1,
            x.dropped_publishes == 0,
    {
        let depth: usize = if web_gpu {
            2
        } else {
            3
        };
        LiveTextureExchange {
            depth,
            entries: HashMap::new(),
            blob_to_id: HashMap::new(),
            next_id: 1,
            dropped_publishes: 0,
        }
    }

    /// Takes the next id for a mailbox of at least one pixel. Ids start over at one.
    pub fn request_live(&mut self, width: u32, height: u32) -> (request: LiveRequest)
        requires
            old(self).depth < usize::MAX,
        ensures
            request == (LiveRequest {
                id: LiveTextureId(old(self).next_id),
                width: max_int(width as int, 1) as u32,
                height: max_int(height as int, 1) as u32,
                textures: (old(self).depth + 1) as usize,
            }),
            *final(self) == (LiveTextureExchange {
                next_id: if old(self).next_id == u64::MAX {
                    1
                } else {
                    (old(self).next_id + 1) as u64
                },
                ..*old(self)
            }),
            1 <= request.width && 1 <= request.height,
            width > 0 ==> request.width == width,
            height > 0 ==> request.height == height,
            request.textures == old(self).depth + 1,
            old(self).next_id < u64::MAX ==> final(self).next_id == request.id.0 + 1,
            final(self).next_id > 0,
    {
        let id: LiveTextureId = LiveTextureId(self.next_id);
        let next: u64 = self.next_id.wrapping_add(1);
        self.next_id = if next < 1 {
            1
        } else {
            next
        };
        LiveRequest { id, width: max_u32(width, 1), height: max_u32(height, 1), textures: self.depth + 1 }
    }

    /// `entry` is a new mailbox: all slots are free, and none is the front.
    pub open spec fn is_new(
        entry: LiveEntry,
        request: LiveRequest,
        image: ImageData,
        textures: Seq<u64>,
        sample: u64,
    ) -> bool {
        &&& entry.width == request.width
        &&& entry.height == request.height
        &&& entry.image == image
        &&& entry.front is None
        &&& entry.next_seq == 1
        &&& entry.front_seq == 0
        &&& entry.sample == sample
        &&& entry.slots@ == textures.map_values(
            |t: u64| Slot { texture: t, pending: None, reserved: false, seq: 0 },
        )
    }

    /// Sets up a mailbox, whose scene-facing image has an identity but no pixels. A mailbox that
    /// had the id before is handed back.
    pub fn insert_live(&mut self, request: LiveRequest, blob_id: u64, textures: Vec<u64>, sample: u64) -> (r: (
        ImageData,
        Option<LiveEntry>,
    ))
        requires
            old(self).wf(),
        ensures
            final(self).wf(),
            r.0 == (ImageData {
                id: blob_id,
                format: ImageFormat::Rgba8,
                alpha_type: ImageAlphaType::Alpha,
                width: request.width,
                height: request.height,
            }),
            r.1 == (if old(self).has(request.id) {
                Some(old(self).entry(request.id))
            } else {
                None
            }),
            Self::is_new(final(self).entry(request.id), request, r.0, textures@, sample),
            final(self).entries@ == old(self).entries@.insert(request.id.0, final(self).entry(request.id)),
            final(self).blob_to_id@ == old(self).blob_to_id@.insert(blob_id, request.id),
            final(self).entry(request.id).slots@.len() == textures@.len(),
            forall|i: int|
                0 <= i < textures@.len() ==> (#[trigger] final(self).entry(request.id).slots@[i]).texture == textures@[i],
            forall|i: int| 0 <= i < textures@.len() ==> #[trigger] final(self).entry(request.id).is_free(i),
            final(self).entry(request.id).sample == sample,
            final(self).spec_front_texture(request.id) is None,
            *final(self) == (LiveTextureExchange {
                entries: final(self).entries,
                blob_to_id: final(self).blob_to_id,
                ..*old(self)
            }),
    {
        let mut slots: Vec<Slot> = Vec::new();
        let mut i: usize = 0;
        while i < textures.len()
            invariant
                i <= textures.len(),
                slots@ == textures@.map_values(
                    |t: u64| Slot { texture: t, pending: None, reserved: false, seq: 0 },
                ).take(i as int),
            decreases textures.len() - i,
        {
            slots.push(Slot { texture: textures[i], pending: None, reserved: false, seq: 0 });
            i = i + 1;
            assert(slots@ =~= textures@.map_values(
                |t: u64| Slot { texture: t, pending: None, reserved: false, seq: 0 },
            ).take(i as int));
        }
        assert(slots@ =~= textures@.map_values(|t: u64| Slot { texture: t, pending: None, reserved: false, seq: 0 }));
        let image: ImageData = ImageData {
            id: blob_id,
            format: ImageFormat::Rgba8,
            alpha_type: ImageAlphaType::Alpha,
            width: request.width,
            height: request.height,
        };
        let entry: LiveEntry = LiveEntry {
            width: request.width,
            height: request.height,
            image,
            slots,
            front: None,
            next_seq: 1,
            front_seq: 0,
            sample,
        };
        let _ = self.blob_to_id.insert(blob_id, request.id);
        let replaced: Option<LiveEntry> = self.entries.insert(request.id.0, entry);
        (image, replaced)
    }

    /// The scene-facing image of a mailbox.
    pub fn image_data(&self, id: LiveTextureId) -> (image: Option<ImageData>)
        ensures
            image == (if self.has(id) {
                Some(self.entry(id).image)
            } else {
                None
            }),
    {
        match self.entries.get(&id.0) {
            Some(entry) => Some(entry.image),
            None => None,
        }
    }

    /// An image belongs to a mailbox.
    pub open spec fn live_blob(self, blob_id: u64) -> bool {
        self.blob_to_id@.dom().contains(blob_id)
    }

    /// The mailbox behind an image.
    pub fn id_for_blob(&self, blob_id: u64) -> (id: Option<LiveTextureId>)
        ensures
            id == (if self.live_blob(blob_id) {
                Some(self.blob_to_id@[blob_id])
            } else {
                None
            }),
    {
        match self.blob_to_id.get(&blob_id) {
            Some(id) => Some(*id),
            None => None,
        }
    }

    /// Whether an image belongs to a mailbox.
    pub fn is_live_blob(&self, blob_id: u64) -> (b: bool)
        ensures
            b == self.live_blob(blob_id),
    {
        self.blob_to_id.contains_key(&blob_id)
    }

    /// Whether an image belongs to a mailbox.
    pub fn contains_blob(&self, blob_id: u64) -> (b: bool)
        ensures
            b == self.live_blob(blob_id),
    {
        self.is_live_blob(blob_id)
    }

    /// Frees a mailbox: the work that is in flight has to be waited for, and the textures of the
    /// slots and the mirror are released.
    pub fn free(&mut self, id: LiveTextureId) -> (freed: Option<FreedEntry>)
        requires
            old(self).wf(),
        ensures
            final(self).wf(),
            match freed {
                Some(f) => {
                    let entry = old(self).entry(id);
                    &&& old(self).has(id)
                    &&& final(self).entries@ == old(self).entries@.remove(id.0)
                    &&& final(self).blob_to_id@ == old(self).blob_to_id@.remove(entry.image.id)
                    &&& f.waits@ == pending_work(entry.slots@)
                    &&& f.textures@ == entry.slots@.map_values(|s: Slot| s.texture).push(entry.sample)
                    &&& f.textures@.len() == entry.slots@.len() + 1
                    &&& f.textures@.last() == entry.sample
                    &&& forall|i: int| 0 <= i < entry.slots@.len() ==> #[trigger] f.textures@[i] == entry.slots@[i].texture
                    &&& !final(self).has(id)
                    &&& !final(self).live_blob(entry.image.id)
                },
                None => !old(self).has(id) && *final(self) == *old(self),
            },
            *final(self) == (LiveTextureExchange {
                entries: final(self).entries,
                blob_to_id: final(self).blob_to_id,
                ..*old(self)
            }),
    {
        if !self.entries.contains_key(&id.0) {
            return None;
        }
        match self.entries.remove(&id.0) {
            Some(entry) => {
                let _ = self.blob_to_id.remove(&entry.image.id);
                let mut waits: Vec<u64> = Vec::new();
                let mut textures: Vec<u64> = Vec::new();
                let mut s: usize = 0;
                let ghost names = entry.slots@.map_values(|s: Slot| s.texture);
                while s < entry.slots.len()
                    invariant
                        s <= entry.slots.len(),
                        names == entry.slots@.map_values(|s: Slot| s.texture),
                        waits@ == pending_work(entry.slots@.take(s as int)),
                        textures@ == names.take(s as int),
                    decreases entry.slots.len() - s,
                {
                    assert(entry.slots@.take(s as int + 1).drop_last() =~= entry.slots@.take(s as int));
                    if let Some(work) = entry.slots[s].pending {
                        waits.push(work);
                    }
                    textures.push(entry.slots[s].texture);
                    assert(names.take(s as int + 1) =~= names.take(s as int).push(names[s as int]));
                    s = s + 1;
                }
                assert(entry.slots@.take(s as int) =~= entry.slots@);
                assert(names.take(s as int) =~= names);
                textures.push(entry.sample);
                Some(FreedEntry { waits, textures })
            },
            None => None,
        }
    }

    /// `next` is `self` after its settled work has been taken note of.
    pub open spec fn polled(self, next: LiveTextureExchange, settled: Seq<u64>) -> bool {
        &&& next.entries@.dom() == self.entries@.dom()
        &&& forall|k: u64| #[trigger]
            self.entries@.dom().contains(k) ==> entry_polled(self.entries@[k], next.entries@[k], settled)
        &&& next == (LiveTextureExchange { entries: next.entries, ..self })
    }

    /// Takes note of the work that has settled.
    pub fn poll_settlement(&mut self, settled: &[u64])
        requires
            old(self).wf(),
        ensures
            final(self).wf(),
            old(self).polled(*final(self), settled@),
    {
        let ghost before = *self;
        let keys: Vec<u64> = list_keys(&self.entries);
        let mut i: usize = 0;
        while i < keys.len()
            invariant
                before.wf(),
                keys@.no_duplicates(),
                keys@.to_set() == before.entries@.dom(),
                i <= keys.len(),
                *self == (LiveTextureExchange { entries: self.entries, ..before }),
                self.entries@.dom() == before.entries@.dom(),
                forall|j: int|
                    0 <= j < i ==> self.entries@[#[trigger] keys@[j]].wf() && entry_polled(
                        before.entries@[keys@[j]],
                        self.entries@[keys@[j]],
                        settled@,
                    ),
                forall|j: int|
                    i <= j < keys@.len() ==> self.entries@[#[trigger] keys@[j]] == before.entries@[keys@[j]],
            decreases keys.len() - i,
        {
            let key: u64 = keys[i];
            assert(keys@.to_set().contains(keys@[i as int]));
            if let Some(taken) = self.entries.remove(&key) {
                let mut entry: LiveEntry = taken;
                entry.poll(settled);
                let _ = self.entries.insert(key, entry);
                assert(self.entries@.dom() =~= before.entries@.dom());
            }
            i = i + 1;
        }
        assert forall|k: u64| #[trigger] before.entries@.dom().contains(k) implies self.entries@[k].wf() && entry_polled(
            before.entries@[k],
            self.entries@[k],
            settled@,
        ) by {
            assert(keys@.to_set().contains(k));
            let j = keys@.index_of(k);
            assert(keys@[j] == k);
        }
    }

    /// The mailbox is polled, and then its first free slot is held for a producer.
    pub open spec fn publish_begun(
        self,
        next: LiveTextureExchange,
        settled: Seq<u64>,
        id: LiveTextureId,
        slot: Option<usize>,
    ) -> bool {
        exists|mid: LiveTextureExchange|
            {
                &&& #[trigger] self.polled(mid, settled)
                &&& match slot {
                    Some(s) => {
                        &&& mid.entry(id).is_free(s as int)
                        &&& forall|k: int| 0 <= k < s ==> !mid.entry(id).is_free(k)
                        &&& next.entry(id).slots@ == mid.entry(id).slots@.update(
                            s as int,
                            Slot { reserved: true, ..mid.entry(id).slots@[s as int] },
                        )
                        &&& next.entry(id) == (LiveEntry { slots: next.entry(id).slots, ..mid.entry(id) })
                        &&& mid.only_entry_changed(next, id)
                    },
                    None => {
                        &&& forall|k: int| !mid.entry(id).is_free(k)
                        &&& next == (LiveTextureExchange {
                            dropped_publishes: if self.dropped_publishes == u64::MAX {
                                u64::MAX
                            } else {
                                (self.dropped_publishes + 1) as u64
                            },
                            ..mid
                        })
                    },
                }
            }
    }

    /// Reserves a back slot for publication: the first that is neither the front nor in use. Without
    /// one the publication is dropped, and counted.
    pub fn begin_publish(&mut self, id: LiveTextureId, settled: &[u64]) -> (r: Result<Option<usize>, Error>)
        requires
            old(self).wf(),
        ensures
            final(self).wf(),
            match r {
                Ok(slot) => old(self).has(id) && old(self).publish_begun(*final(self), settled@, id, slot),
                Err(e) => {
                    &&& !old(self).has(id)
                    &&& old(self).polled(*final(self), settled@)
                    &&& e matches Error::Gpu(text) && text@ == unknown_id_text(id)
                },
            },
    {
        let ghost before = *self;
        self.poll_settlement(settled);
        let ghost mid = *self;
        let free: Option<usize> = match self.entries.get(&id.0) {
            Some(entry) => entry.find_free(),
            None => {
                return Err(unknown_id(id));
            },
        };
        match free {
            None => {
                self.dropped_publishes = self.dropped_publishes.saturating_add(1);
                assert(before.publish_begun(*self, settled@, id, None));
                Ok(None)
            },
            Some(s) => {
                let mut entry: LiveEntry = self.entries.remove(&id.0).unwrap();
                let slot: Slot = entry.slots[s];
                entry.slots.set(s, Slot { reserved: true, ..slot });
                let _ = self.entries.insert(id.0, entry);
                assert(self.entries@ =~= mid.entries@.insert(id.0, self.entry(id)));
                assert(before.publish_begun(*self, settled@, id, Some(s)));
                Ok(Some(s))
            },
        }
    }

    /// The texture of a slot.
    pub fn slot_texture(&self, id: LiveTextureId, slot: usize) -> (texture: Option<u64>)
        ensures
            texture == (if self.has(id) && slot < self.entry(id).slots@.len() {
                Some(self.entry(id).slots@[slot as int].texture)
            } else {
                None
            }),
    {
        match self.entries.get(&id.0) {
            Some(entry) => if slot < entry.slots.len() {
                Some(entry.slots[slot].texture)
            } else {
                None
            },
            None => None,
        }
    }

    /// Lets go of a slot that nothing has been submitted for.
    pub fn cancel_publish(&mut self, id: LiveTextureId, slot: usize)
        requires
            old(self).wf(),
        ensures
            final(self).wf(),
            if old(self).has(id) && slot < old(self).entry(id).slots@.len() && old(self).entry(
                id,
            ).slots@[slot as int].pending is None {
                &&& old(self).only_entry_changed(*final(self), id)
                &&& final(self).entry(id).slots@ == old(self).entry(id).slots@.update(
                    slot as int,
                    Slot { reserved: false, ..old(self).entry(id).slots@[slot as int] },
                )
                &&& final(self).entry(id) == (LiveEntry { slots: final(self).entry(id).slots, ..old(self).entry(id) })
            } else {
                *final(self) == *old(self)
            },
            old(self).has(id) && slot < old(self).entry(id).slots@.len() && old(self).entry(
                id,
            ).slots@[slot as int].pending is None ==> !final(self).entry(id).slots@[slot as int].reserved,
            final(self).spec_front_texture(id) == old(self).spec_front_texture(id),
    {
        let ghost before = *self;
        let held: bool = match self.entries.get(&id.0) {
            Some(entry) => slot < entry.slots.len() && entry.slots[slot].pending.is_none(),
            None => false,
        };
        if held {
            let mut entry: LiveEntry = self.entries.remove(&id.0).unwrap();
            let s: Slot = entry.slots[slot];
            entry.slots.set(slot, Slot { reserved: false, ..s });
            let _ = self.entries.insert(id.0, entry);
            assert(self.entries@ =~= before.entries@.insert(id.0, self.entry(id)));
        }
    }

    /// The work is attached to the slot of the mailbox, under the next number.
    pub open spec fn attached(self, mid: LiveTextureExchange, id: LiveTextureId, slot: usize, work: u64) -> bool {
        &&& self.only_entry_changed(mid, id)
        &&& mid.entry(id).slots@ == self.entry(id).slots@.update(
            slot as int,
            Slot {
                pending: Some(work),
                seq: self.entry(id).next_seq,
                ..self.entry(id).slots@[slot as int]
            },
        )
        &&& mid.entry(id) == (LiveEntry {
            slots: mid.entry(id).slots,
            next_seq: next_number(self.entry(id).next_seq),
            ..self.entry(id)
        })
    }

    /// Attaches the submission that writes a reserved slot, and takes note of what has settled.
    pub fn complete_publish(&mut self, id: LiveTextureId, slot: usize, work: u64, settled: &[u64]) -> (r: Result<
        (),
        Error,
    >)
        requires
            old(self).wf(),
        ensures
            final(self).wf(),
            match r {
                Ok(()) => {
                    &&& old(self).has(id)
                    &&& slot < old(self).entry(id).slots@.len()
                    &&& old(self).entry(id).slots@[slot as int].pending is None
                    &&& old(self).entry(id).slots@[slot as int].reserved
                    &&& exists|mid: LiveTextureExchange| #[trigger]
                        old(self).attached(mid, id, slot, work) && mid.polled(*final(self), settled@)
                },
                Err(e) => {
                    &&& *final(self) == *old(self)
                    &&& e matches Error::Gpu(text) && if !old(self).has(id) {
                        text@ == unknown_id_text(id)
                    } else if slot >= old(self).entry(id).slots@.len() {
                        text@ == slot_text("LiveTextureExchange: invalid slot ", slot, "")
                    } else if old(self).entry(id).slots@[slot as int].pending is Some {
                        text@ == slot_text("LiveTextureExchange: slot ", slot, " already pending")
                    } else {
                        &&& !old(self).entry(id).slots@[slot as int].reserved
                        &&& text@ == slot_text("LiveTextureExchange: slot ", slot, " was not reserved")
                    }
                },
            },
    {
        let ghost before = *self;
        match self.entries.get(&id.0) {
            None => {
                return Err(unknown_id(id));
            },
            Some(entry) => {
                if slot >= entry.slots.len() {
                    return Err(slot_error("LiveTextureExchange: invalid slot ", slot, ""));
                }
                if entry.slots[slot].pending.is_some() {
                    return Err(slot_error("LiveTextureExchange: slot ", slot, " already pending"));
                }
                if !entry.slots[slot].reserved {
                    return Err(slot_error("LiveTextureExchange: slot ", slot, " was not reserved"));
                }
            },
        }
        let mut entry: LiveEntry = self.entries.remove(&id.0).unwrap();
        let s: Slot = entry.slots[slot];
        let seq: u64 = entry.next_seq;
        entry.next_seq = seq.wrapping_add(1);
        entry.slots.set(slot, Slot { pending: Some(work), seq, ..s });
        let _ = self.entries.insert(id.0, entry);
        assert(self.entries@ =~= before.entries@.insert(id.0, self.entry(id)));
        let ghost mid = *self;
        assert(before.attached(mid, id, slot, work));
        self.poll_settlement(settled);
        Ok(())
    }

    /// Marks a reserved slot as the front after it was filled on the host.
    pub fn complete_publish_ready(&mut self, id: LiveTextureId, slot: usize) -> (r: Result<(), Error>)
        requires
            old(self).wf(),
        ensures
            final(self).wf(),
            match r {
                Ok(()) => {
                    &&& old(self).has(id)
                    &&& slot < old(self).entry(id).slots@.len()
                    &&& old(self).entry(id).slots@[slot as int].reserved
                    &&& old(self).entry(id).slots@[slot as int].pending is None
                    &&& old(self).only_entry_changed(*final(self), id)
                    &&& final(self).entry(id).slots@ == old(self).entry(id).slots@.update(
                        slot as int,
                        Slot {
                            reserved: false,
                            seq: old(self).entry(id).next_seq,
                            ..old(self).entry(id).slots@[slot as int]
                        },
                    )
                    &&& final(self).entry(id) == (LiveEntry {
                        slots: final(self).entry(id).slots,
                        next_seq: next_number(old(self).entry(id).next_seq),
                        front: Some(slot),
                        front_seq: old(self).entry(id).next_seq,
                        ..old(self).entry(id)
                    })
                    &&& final(self).spec_front_texture(id) == Some(old(self).entry(id).slots@[slot as int].texture)
                    &&& !final(self).entry(id).slots@[slot as int].reserved
                    &&& old(self).entry(id).next_seq < u64::MAX ==> final(self).entry(id).next_seq
                        > final(self).entry(id).front_seq
                },
                Err(e) => {
                    &&& *final(self) == *old(self)
                    &&& e matches Error::Gpu(text) && if !old(self).has(id) {
                        text@ == unknown_id_text(id)
                    } else if slot >= old(self).entry(id).slots@.len() {
                        text@ == slot_text("LiveTextureExchange: invalid slot ", slot, "")
                    } else if !old(self).entry(id).slots@[slot as int].reserved {
                        text@ == slot_text("LiveTextureExchange: slot ", slot, " was not reserved")
                    } else {
                        &&& old(self).entry(id).slots@[slot as int].pending is Some
                        &&& text@ == slot_text("LiveTextureExchange: slot ", slot, " still pending")
                    }
                },
            },
    {
        let ghost before = *self;
        match self.entries.get(&id.0) {
            None => {
                return Err(unknown_id(id));
            },
            Some(entry) => {
                if slot >= entry.slots.len() {
                    return Err(slot_error("LiveTextureExchange: invalid slot ", slot, ""));
                }
                if !entry.slots[slot].reserved {
                    return Err(slot_error("LiveTextureExchange: slot ", slot, " was not reserved"));
                }
                if entry.slots[slot].pending.is_some() {
                    return Err(slot_error("LiveTextureExchange: slot ", slot, " still pending"));
                }
            },
        }
        let mut entry: LiveEntry = self.entries.remove(&id.0).unwrap();
        let s: Slot = entry.slots[slot];
        let seq: u64 = entry.next_seq;
        entry.next_seq = seq.wrapping_add(1);
        entry.slots.set(slot, Slot { reserved: false, seq, ..s });
        entry.front = Some(slot);
        entry.front_seq = seq;
        let _ = self.entries.insert(id.0, entry);
        assert(self.entries@ =~= before.entries@.insert(id.0, self.entry(id)));
        Ok(())
    }

    /// The texture of the front slot of a mailbox.
    pub open spec fn spec_front_texture(self, id: LiveTextureId) -> Option<u64> {
        if self.has(id) {
            match self.entry(id).front {
                Some(f) => Some(self.entry(id).slots@[f as int].texture),
                None => None,
            }
        } else {
            None
        }
    }

    /// The texture of the front slot.
    pub fn front_texture(&self, id: LiveTextureId) -> (texture: Option<u64>)
        requires
            self.wf(),
        ensures
            texture == self.spec_front_texture(id),
    {
        match self.entries.get(&id.0) {
            Some(entry) => {
                assert(self.entries@.dom().contains(id.0));
                match entry.front {
                    Some(f) => Some(entry.slots[f].texture),
                    None => None,
                }
            },
            None => None,
        }
    }

    /// The sample mirror of a mailbox.
    pub fn sample_texture(&self, id: LiveTextureId) -> (texture: Option<u64>)
        ensures
            texture == (if self.has(id) {
                Some(self.entry(id).sample)
            } else {
                None
            }),
    {
        match self.entries.get(&id.0) {
            Some(entry) => Some(entry.sample),
            None => None,
        }
    }

    /// The copy that brings the sample mirror up to date: from the front, once there is one, to the
    /// mirror.
    pub fn sync_sample_mirror(&mut self, id: LiveTextureId, settled: &[u64]) -> (copy: Option<(u64, u64)>)
        requires
            old(self).wf(),
        ensures
            final(self).wf(),
            old(self).polled(*final(self), settled@),
            copy == (match final(self).spec_front_texture(id) {
                Some(front) => Some((front, final(self).entry(id).sample)),
                None => None,
            }),
            copy matches Some(c) ==> old(self).has(id) && c.1 == old(self).entry(id).sample,
            copy matches Some(c) ==> final(self).spec_front_texture(id) == Some(c.0),
            copy is None ==> !old(self).has(id) || final(self).entry(id).front is None,
    {
        self.poll_settlement(settled);
        match self.front_texture(id) {
            Some(front) => match self.sample_texture(id) {
                Some(sample) => Some((front, sample)),
                None => None,
            },
            None => None,
        }
    }

    /// The size of a texture does not fit the mailbox.
    pub open spec fn mismatch_text(src: (u32, u32), dst: (u32, u32)) -> Seq<char> {
        "blit_into: size mismatch "@ + decimal_of(src.0 as nat) + "x"@ + decimal_of(src.1 as nat) + " \u{2192} "@
            + decimal_of(dst.0 as nat) + "x"@ + decimal_of(dst.1 as nat)
    }

    fn size_mismatch(src: (u32, u32), dst: (u32, u32)) -> (e: Error)
        ensures
            e matches Error::Gpu(text) && text@ == Self::mismatch_text(src, dst),
    {
        let mut text: String = String::from_str("blit_into: size mismatch ");
        let a: String = decimal(src.0 as u64);
        let b: String = decimal(src.1 as u64);
        let c: String = decimal(dst.0 as u64);
        let d: String = decimal(dst.1 as u64);
        text.append(a.as_str());
        text.append("x");
        text.append(b.as_str());
        text.append(" \u{2192} ");
        text.append(c.as_str());
        text.append("x");
        text.append(d.as_str());
        Error::Gpu(text)
    }

    /// Reserves a back slot for a copy of a texture of the given size. A texture of another size is
    /// refused, and the slot is let go again.
    pub fn blit_into(&mut self, id: LiveTextureId, size: (u32, u32), settled: &[u64]) -> (r: Result<
        Option<(usize, u64)>,
        Error,
    >)
        requires
            old(self).wf(),
        ensures
            final(self).wf(),
            match r {
                Ok(None) => old(self).has(id) && old(self).publish_begun(*final(self), settled@, id, None),
                Ok(Some((slot, texture))) => {
                    &&& old(self).has(id)
                    &&& old(self).publish_begun(*final(self), settled@, id, Some(slot))
                    &&& (old(self).entry(id).width, old(self).entry(id).height) == size
                    &&& texture == final(self).entry(id).slots@[slot as int].texture
                },
                Err(e) => {
                    &&& old(self).polled(*final(self), settled@)
                    &&& e matches Error::Gpu(text) && if !old(self).has(id) {
                        text@ == unknown_id_text(id)
                    } else {
                        &&& (old(self).entry(id).width, old(self).entry(id).height) != size
                        &&& exists|slot: usize, next: LiveTextureExchange| #[trigger]
                            old(self).publish_begun(next, settled@, id, Some(slot))
                        &&& text@ == Self::mismatch_text(size, (old(self).entry(id).width, old(self).entry(id).height))
                    }
                },
            },
    {
        let ghost before = *self;
        let slot: usize = match self.begin_publish(id, settled) {
            Ok(Some(slot)) => slot,
            Ok(None) => {
                return Ok(None);
            },
            Err(e) => {
                return Err(e);
            },
        };
        let ghost begun = *self;
        let ghost mid = choose|mid: LiveTextureExchange|
            {
                &&& #[trigger] before.polled(mid, settled@)
                &&& mid.entry(id).is_free(slot as int)
                &&& forall|k: int| 0 <= k < slot ==> !mid.entry(id).is_free(k)
                &&& self.entry(id).slots@ == mid.entry(id).slots@.update(
                    slot as int,
                    Slot { reserved: true, ..mid.entry(id).slots@[slot as int] },
                )
                &&& self.entry(id) == (LiveEntry { slots: self.entry(id).slots, ..mid.entry(id) })
                &&& mid.only_entry_changed(*self, id)
            };
        assert(before.entries@.dom().contains(id.0));
        assert(entry_polled(before.entry(id), mid.entry(id), settled@));
        let (width, height, texture) = match self.entries.get(&id.0) {
            Some(entry) => (entry.width, entry.height, entry.slots[slot].texture),
            None => {
                return Ok(None);
            },
        };
        if size.0 != width || size.1 != height {
            self.cancel_publish(id, slot);
            assert(before.publish_begun(begun, settled@, id, Some(slot)));
            assert(before.polled(*self, settled@)) by {
                assert(self.entry(id).slots@ =~= mid.entry(id).slots@);
                assert(self.entries@.dom() =~= before.entries@.dom());
                assert forall|k: u64| #[trigger] before.entries@.dom().contains(k) implies entry_polled(
                    before.entries@[k],
                    self.entries@[k],
                    settled@,
                ) by {
                    assert(entry_polled(before.entries@[k], mid.entries@[k], settled@));
                }
            }
            return Err(Self::size_mismatch(size, (width, height)));
        }
        Ok(Some((slot, texture)))
    }

    /// Images of the mailboxes, each once.
    pub fn live_blob_ids(&self) -> (ids: Vec<u64>)
        ensures
            ids@.no_duplicates(),
            ids@.to_set() == self.blob_to_id@.dom(),
    {
        list_keys(&self.blob_to_id)
    }

    /// Ids of the mailboxes, each once.
    pub fn iter_ids(&self) -> (ids: Vec<LiveTextureId>)
        ensures
            ids@.no_duplicates(),
            forall|id: LiveTextureId| #[trigger] ids@.contains(id) == self.has(id),
    {
        let keys: Vec<u64> = list_keys(&self.entries);
        let mut ids: Vec<LiveTextureId> = Vec::new();
        let mut i: usize = 0;
        while i < keys.len()
            invariant
                i <= keys.len(),
                ids@.len() == i,
                forall|j: int| 0 <= j < i ==> #[trigger] ids@[j] == LiveTextureId(keys@[j]),
            decreases keys.len() - i,
        {
            ids.push(LiveTextureId(keys[i]));
            i = i + 1;
        }
        proof {
            assert forall|id: LiveTextureId| #[trigger] ids@.contains(id) == self.has(id) by {
                if ids@.contains(id) {
                    let j = ids@.index_of(id);
                    assert(keys@.to_set().contains(keys@[j]));
                }
                if self.has(id) {
                    assert(keys@.to_set().contains(id.0));
                    let j = keys@.index_of(id.0);
                    assert(ids@[j] == id);
                }
            }
        }
        ids
    }

    /// Id, image, width and height of a mailbox.
    pub open spec fn front_row(self, id: LiveTextureId) -> (LiveTextureId, u64, u32, u32) {
        let e = self.entry(id);
        (id, e.image.id, e.width, e.height)
    }

    /// Id, image, width and height of the mailboxes that currently have a settled front, each once.
    pub fn settled_fronts(&self) -> (rows: Vec<(LiveTextureId, u64, u32, u32)>)
        ensures
            forall|i: int, j: int|
                0 <= i < j < rows@.len() ==> (#[trigger] rows@[i]).0 != (#[trigger] rows@[j]).0,
            forall|i: int|
                0 <= i < rows@.len() ==> self.has((#[trigger] rows@[i]).0) && self.entry(rows@[i].0).front is Some
                    && rows@[i] == self.front_row(rows@[i].0),
            forall|id: LiveTextureId| #[trigger]
                self.has(id) && self.entry(id).front is Some ==> rows@.contains(self.front_row(id)),
    {
        let ids: Vec<LiveTextureId> = self.iter_ids();
        let mut rows: Vec<(LiveTextureId, u64, u32, u32)> = Vec::new();
        let mut i: usize = 0;
        while i < ids.len()
            invariant
                i <= ids.len(),
                ids@.no_duplicates(),
                forall|id: LiveTextureId| #[trigger] ids@.contains(id) == self.has(id),
                forall|a: int, b: int|
                    0 <= a < b < rows@.len() ==> (#[trigger] rows@[a]).0 != (#[trigger] rows@[b]).0,
                forall|a: int|
                    0 <= a < rows@.len() ==> ids@.take(i as int).contains((#[trigger] rows@[a]).0) && self.entry(
                        rows@[a].0,
                    ).front is Some && rows@[a] == self.front_row(rows@[a].0),
                forall|j: int|
                    0 <= j < i && self.entry(#[trigger] ids@[j]).front is Some ==> rows@.contains(
                        self.front_row(ids@[j]),
                    ),
            decreases ids.len() - i,
        {
            let id: LiveTextureId = ids[i];
            let ghost done = ids@.take(i as int);
            let ghost listed = rows@;
            assert(ids@.contains(ids@[i as int]));
            assert(ids@.take(i as int + 1) =~= done.push(id));
            assert forall|a: int| 0 <= a < listed.len() implies (#[trigger] listed[a]).0 != id by {
                let j = done.index_of(listed[a].0);
                assert(ids@[j] == listed[a].0 && j < i);
            }
            if let Some(e) = self.entries.get(&id.0) {
                if e.front.is_some() {
                    rows.push((id, e.image.id, e.width, e.height));
                    assert(rows@[listed.len() as int] == self.front_row(id));
                }
            }
            assert forall|a: int| 0 <= a < rows@.len() implies ids@.take(i as int + 1).contains((#[trigger] rows@[a]).0) by {
                if a < listed.len() {
                    let j = done.index_of(listed[a].0);
                    assert(ids@.take(i as int + 1)[j] == listed[a].0);
                } else {
                    assert(ids@.take(i as int + 1)[i as int] == id);
                }
            }
            assert forall|j: int| 0 <= j < i + 1 && self.entry(#[trigger] ids@[j]).front is Some implies rows@.contains(
                self.front_row(ids@[j]),
            ) by {
                if j < i {
                    let a = listed.index_of(self.front_row(ids@[j]));
                    assert(rows@[a] == self.front_row(ids@[j]));
                }
            }
            i = i + 1;
        }
        proof {
            assert(ids@.take(i as int) =~= ids@);
            assert forall|id: LiveTextureId| #[trigger]
                self.has(id) && self.entry(id).front is Some implies rows@.contains(self.front_row(id)) by {
                assert(ids@.contains(id));
                let j = ids@.index_of(id);
                assert(ids@[j] == id);
            }
        }
        rows
    }

    /// Size and mirror of a mailbox.
    pub open spec fn sample_key(e: LiveEntry) -> (u32, u32, u64) {
        (e.width, e.height, e.sample)
    }

    /// The sizes and mirrors of the mailboxes in an order of their ids.
    pub open spec fn sample_keys(self, ids: Seq<u64>) -> Seq<(u32, u32, u64)> {
        ids.map_values(|k: u64| Self::sample_key(self.entries@[k]))
    }

    /// Stable sample-texture handles for worker topology, in order: one for each mailbox. A front that
    /// changes does not change them.
    pub fn sample_topology_keys(&self) -> (keys: Vec<(u32, u32, u64)>)
        ensures
            sorted_keys(keys@),
            exists|ids: Seq<u64>|
                ids.no_duplicates() && ids.to_set() == self.entries@.dom() && keys@.to_multiset()
                    == #[trigger] self.sample_keys(ids).to_multiset(),
    {
        let ids: Vec<u64> = list_keys(&self.entries);
        let mut keys: Vec<(u32, u32, u64)> = Vec::new();
        let mut i: usize = 0;
        let ghost all = self.sample_keys(ids@);
        assert(keys@ =~= all.take(0));
        while i < ids.len()
            invariant
                i <= ids.len(),
                ids@.to_set() == self.entries@.dom(),
                all == self.sample_keys(ids@),
                sorted_keys(keys@),
                keys@.to_multiset() == all.take(i as int).to_multiset(),
            decreases ids.len() - i,
        {
            let id: u64 = ids[i];
            assert(ids@.to_set().contains(ids@[i as int]));
            if let Some(e) = self.entries.get(&id) {
                insert_key(&mut keys, (e.width, e.height, e.sample));
            }
            proof {
                assert(all.take(i as int + 1) =~= all.take(i as int).push(all[i as int]));
                all.take(i as int).to_multiset_ensures();
            }
            i = i + 1;
        }
        assert(all.take(i as int) =~= all);
        assert(keys@.to_multiset() == self.sample_keys(ids@).to_multiset());
        keys
    }
}

/// Keys are ordered by width, then height, then handle.
pub open spec fn key_at_most(a: (u32, u32, u64), b: (u32, u32, u64)) -> bool {
    ||| a.0 < b.0
    ||| a.0 == b.0 && a.1 < b.1
    ||| a.0 == b.0 && a.1 == b.1 && a.2 <= b.2
}

/// The keys are in order.
pub open spec fn sorted_keys(keys: Seq<(u32, u32, u64)>) -> bool {
    forall|i: int, j: int| 0 <= i < j < keys.len() ==> key_at_most(#[trigger] keys[i], #[trigger] keys[j])
}

fn insert_key(keys: &mut Vec<(u32, u32, u64)>, key: (u32, u32, u64))
    requires
        sorted_keys(old(keys)@),
    ensures
        sorted_keys(final(keys)@),
        final(keys)@.to_multiset() == old(keys)@.to_multiset().insert(key),
{
    let ghost before = keys@;
    let mut i: usize = 0;
    while i < keys.len() && (keys[i].0 < key.0 || (keys[i].0 == key.0 && (keys[i].1 < key.1 || (keys[i].1 == key.1
        && keys[i].2 <= key.2))))
        invariant
            i <= keys.len(),
            keys@ == before,
            forall|k: int| 0 <= k < i ==> key_at_most(#[trigger] before[k], key),
        decreases keys.len() - i,
    {
        i = i + 1;
    }
    keys.insert(i, key);
    proof {
        assert(keys@ == before.insert(i as int, key));
        vstd::seq_lib::to_multiset_insert(before, i as int, key);
        assert forall|a: int, b: int| 0 <= a < b < keys@.len() implies key_at_most(
            #[trigger] keys@[a],
            #[trigger] keys@[b],
        ) by {
            if i < before.len() {
                assert(key_at_most(key, before[i as int]));
            }
            let aa = if a < i {
                a
            } else {
                a - 1
            };
            let bb = if b < i {
                b
            } else {
                b - 1
            };
            if a != i && b != i {
                assert(keys@[a] == before[aa] && keys@[b] == before[bb]);
            } else if a == i {
                assert(keys@[b] == before[bb]);
                if bb > i {
                    assert(key_at_most(before[i as int], before[bb]));
                }
            } else {
                assert(keys@[a] == before[aa]);
            }
        }
    }
}

/// The number of the next publication; numbers start over at zero.
pub open spec fn next_number(seq: u64) -> u64 {
    if seq == u64::MAX {
        0
    } else {
        (seq + 1) as u64
    }
}

/// A producer is never given the front, nor a slot that another one holds or whose work has not
/// settled.
pub proof fn handed_out_slots_are_free(
    exchange: LiveTextureExchange,
    next: LiveTextureExchange,
    settled: Seq<u64>,
    id: LiveTextureId,
    slot: usize,
)
    requires
        exchange.publish_begun(next, settled, id, Some(slot)),
        exchange.has(id),
    ensures
        next.entry(id).front != Some(slot),
        next.entry(id).slots@[slot as int].pending is None,
        next.entry(id).slots@[slot as int].reserved,
        !is_settled(exchange.entry(id).slots@[slot as int], settled)
            ==> !exchange.entry(id).slots@[slot as int].reserved,
{
    let mid = choose|mid: LiveTextureExchange|
        {
            &&& #[trigger] exchange.polled(mid, settled)
            &&& mid.entry(id).is_free(slot as int)
            &&& next.entry(id).slots@ == mid.entry(id).slots@.update(
                slot as int,
                Slot { reserved: true, ..mid.entry(id).slots@[slot as int] },
            )
            &&& next.entry(id) == (LiveEntry { slots: next.entry(id).slots, ..mid.entry(id) })
        };
    assert(exchange.entries@.dom().contains(id.0));
    assert(entry_polled(exchange.entry(id), mid.entry(id), settled));
}

/// Taking note of settled work can change a front, but no sample-texture handle.
pub proof fn fronts_leave_sample_keys(
    exchange: LiveTextureExchange,
    next: LiveTextureExchange,
    settled: Seq<u64>,
    ids: Seq<u64>,
)
    requires
        exchange.polled(next, settled),
        ids.to_set() == exchange.entries@.dom(),
    ensures
        ids.to_set() == next.entries@.dom(),
        next.sample_keys(ids) == exchange.sample_keys(ids),
{
    assert forall|i: int| 0 <= i < ids.len() implies next.sample_keys(ids)[i] == exchange.sample_keys(ids)[i] by {
        assert(ids.to_set().contains(ids[i]));
        assert(exchange.entries@.dom().contains(ids[i]));
    }
    assert(next.sample_keys(ids) =~= exchange.sample_keys(ids));
}

} // verus!
