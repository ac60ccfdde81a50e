//! Text and sizes for the dump of a dispatch, which is taken for debugging.

use crate::goldy_engine::{GoldyEngine, GpuBuffer, ResourceProxy};
use crate::resource_proxy::ShaderId;
use crate::text::{decimal, decimal_of};
use vstd::prelude::*;
use vstd::string::*;

verus! {

broadcast use vstd::std_specs::hash::group_hash_axioms;

/// The word at a place, least byte first.
pub open spec fn word_at(bytes: Seq<u8>, at: int) -> int {
    bytes[at] + 0x100 * bytes[at + 1] + 0x1_0000 * bytes[at + 2] + 0x100_0000 * bytes[at + 3]
}

/// The size of an indirect dispatch at an offset of a buffer; zero where the buffer is too short.
pub open spec fn dims_at(bytes: Seq<u8>, offset: u64) -> (u32, u32, u32) {
    if offset + 12 <= bytes.len() {
        (
            word_at(bytes, offset as int) as u32,
            word_at(bytes, offset + 4) as u32,
            word_at(bytes, offset + 8) as u32,
        )
    } else {
        (0, 0, 0)
    }
}

fn read_word(bytes: &[u8], at: usize) -> (word: u32)
    requires
        at + 4 <= bytes@.len(),
    ensures
        word == word_at(bytes@, at as int),
{
    bytes[at] as u32 + 0x100 * bytes[at + 1] as u32 + 0x1_0000 * bytes[at + 2] as u32 + 0x100_0000 * bytes[at + 3] as u32
}

/// Reads the size of an indirect dispatch: from the first bytes of the buffer where they could be
/// read, else from the whole of it.
pub fn indirect_dims(head: Option<&[u8]>, whole: Option<&[u8]>, offset: u64) -> (dims: (u32, u32, u32))
    ensures
        dims == (match (head, whole) {
            (Some(bytes), _) => dims_at(bytes@, offset),
            (None, Some(bytes)) => dims_at(bytes@, offset),
            (None, None) => (0u32, 0u32, 0u32),
        }),
{
    let bytes: &[u8] = match (head, whole) {
        (Some(bytes), _) => bytes,
        (None, Some(bytes)) => bytes,
        (None, None) => {
            return (0, 0, 0);
        },
    };
    let n: usize = bytes.len();
    if n < 12 || offset > (n - 12) as u64 {
        return (0, 0, 0);
    }
    let at: usize = offset as usize;
    (read_word(bytes, at), read_word(bytes, at + 4), read_word(bytes, at + 8))
}

/// Numbers in a row, with a comma and a blank between them.
pub open spec fn row_of(values: Seq<u32>, n: int) -> Seq<char>
    decreases n,
{
    if n <= 0 {
        seq![]
    } else if n == 1 {
        decimal_of(values[0] as nat)
    } else {
        row_of(values, n - 1) + ", "@ + decimal_of(values[n - 1] as nat)
    }
}

/// The head of a manifest.
pub open spec fn head_of(shader: ShaderId, dims: (u32, u32, u32), bindings: nat, slots: Seq<u32>) -> Seq<char> {
    "shader_id: "@ + decimal_of(shader.0 as nat) + "\ndispatch: ("@ + decimal_of(dims.0 as nat) + ", "@ + decimal_of(
        dims.1 as nat,
    ) + ", "@ + decimal_of(dims.2 as nat) + ")\nnum_bindings: "@ + decimal_of(bindings) + "\nresource_slots: ["@
        + row_of(slots, slots.len() as int) + "]\n"@
}

impl GoldyEngine {
    /// What the manifest says of the binding at `i`: nothing of a buffer that is not there.
    pub open spec fn dump_line(self, res: ResourceProxy, i: int, read: bool) -> Seq<char> {
        match res {
            ResourceProxy::Buffer(p) | ResourceProxy::BufferRange { proxy: p, .. } => if self.bufs@.dom().contains(p.id) {
                let (buf, name) = self.bufs@[p.id];
                let slot: u32 = match buf.index {
                    Some(index) => index,
                    None => u32::MAX,
                };
                "binding["@ + decimal_of(i as nat) + "]: buf name="@ + name@ + " size="@ + decimal_of(buf.size as nat)
                    + " bindless="@ + decimal_of(slot as nat) + (if read {
                    "\n"@
                } else {
                    "\n  (read failed)\n"@
                })
            } else {
                seq![]
            },
            ResourceProxy::Image(p) => "binding["@ + decimal_of(i as nat) + "]: image "@ + decimal_of(p.width as nat)
                + "x"@ + decimal_of(p.height as nat) + " id="@ + decimal_of(p.id as nat) + "\n"@,
        }
    }

    /// What the manifest says of the first `n` bindings.
    pub open spec fn dump_lines(self, bindings: Seq<ResourceProxy>, reads: Seq<bool>, n: int) -> Seq<char>
        decreases n,
    {
        if n <= 0 {
            seq![]
        } else {
            self.dump_lines(bindings, reads, n - 1) + self.dump_line(bindings[n - 1], n - 1, reads[n - 1])
        }
    }

    /// The buffers of a dispatch that are dumped, each with the number of its binding.
    pub open spec fn dumped(self, bindings: Seq<ResourceProxy>, n: int) -> Seq<(usize, GpuBuffer)>
        decreases n,
    {
        if n <= 0 {
            seq![]
        } else {
            let before = self.dumped(bindings, n - 1);
            match bindings[n - 1] {
                ResourceProxy::Buffer(p) | ResourceProxy::BufferRange { proxy: p, .. } => if self.bufs@.dom().contains(
                    p.id,
                ) {
                    before.push(((n - 1) as usize, self.bufs@[p.id].0))
                } else {
                    before
                },
                ResourceProxy::Image(_) => before,
            }
        }
    }

    /// Lists the buffers of a dispatch that are dumped, each with the number of its binding.
    pub fn dump_reads(&self, bindings: &[ResourceProxy]) -> (list: Vec<(usize, GpuBuffer)>)
        ensures
            list@ == self.dumped(bindings@, bindings@.len() as int),
    {
        let mut list: Vec<(usize, GpuBuffer)> = Vec::new();
        let mut i: usize = 0;
        while i < bindings.len()
            invariant
                i <= bindings.len(),
                list@ == self.dumped(bindings@, i as int),
            decreases bindings.len() - i,
        {
            match bindings[i] {
                ResourceProxy::Buffer(p) | ResourceProxy::BufferRange { proxy: p, .. } => {
                    if let Some(entry) = self.bufs.get(&p.id) {
                        list.push((i, entry.0));
                    }
                },
                ResourceProxy::Image(_) => {},
            }
            i = i + 1;
        }
        list
    }

    fn append_line(&self, text: &mut String, res: &ResourceProxy, i: usize, read: bool)
        ensures
            final(text)@ == old(text)@ + self.dump_line(*res, i as int, read),
    {
        let ghost before = text@;
        let number: String = decimal(i as u64);
        match *res {
            ResourceProxy::Buffer(p) | ResourceProxy::BufferRange { proxy: p, .. } => {
                if let Some(entry) = self.bufs.get(&p.id) {
                    let slot: u32 = match entry.0.index {
                        Some(index) => index,
                        None => u32::MAX,
                    };
                    let size: String = decimal(entry.0.size);
                    let index: String = decimal(slot as u64);
                    text.append("binding[");
                    text.append(number.as_str());
                    text.append("]: buf name=");
                    text.append(entry.1);
                    text.append(" size=");
                    text.append(size.as_str());
                    text.append(" bindless=");
                    text.append(index.as_str());
                    if read {
                        text.append("\n");
                    } else {
                        text.append("\n  (read failed)\n");
                    }
                }
            },
            ResourceProxy::Image(p) => {
                let width: String = decimal(p.width as u64);
                let height: String = decimal(p.height as u64);
                let id: String = decimal(p.id);
                text.append("binding[");
                text.append(number.as_str());
                text.append("]: image ");
                text.append(width.as_str());
                text.append("x");
                text.append(height.as_str());
                text.append(" id=");
                text.append(id.as_str());
                text.append("\n");
            },
        }
        assert(text@ =~= before + self.dump_line(*res, i as int, read));
    }

    /// The manifest of a dispatch. `reads` tells of each binding whether its buffer could be read.
    pub fn dump_dispatch(
        &self,
        shader: ShaderId,
        dims: (u32, u32, u32),
        bindings: &[ResourceProxy],
        slots: &[u32],
        reads: &[bool],
    ) -> (manifest: String)
        requires
            reads@.len() == bindings@.len(),
        ensures
            manifest@ == head_of(shader, dims, bindings@.len(), slots@) + self.dump_lines(
                bindings@,
                reads@,
                bindings@.len() as int,
            ),
    {
        let mut text: String = String::from_str("shader_id: ");
        let id: String = decimal(shader.0 as u64);
        let x: String = decimal(dims.0 as u64);
        let y: String = decimal(dims.1 as u64);
        let z: String = decimal(dims.2 as u64);
        let count: String = decimal(bindings.len() as u64);
        text.append(id.as_str());
        text.append("\ndispatch: (");
        text.append(x.as_str());
        text.append(", ");
        text.append(y.as_str());
        text.append(", ");
        text.append(z.as_str());
        text.append(")\nnum_bindings: ");
        text.append(count.as_str());
        text.append("\nresource_slots: [");
        let ghost start = text@;
        let mut k: usize = 0;
        assert(text@ =~= start + row_of(slots@, 0));
        while k < slots.len()
            invariant
                k <= slots.len(),
                text@ == start + row_of(slots@, k as int),
            decreases slots.len() - k,
        {
            let slot: String = decimal(slots[k] as u64);
            if k > 0 {
                text.append(", ");
            }
            text.append(slot.as_str());
            k = k + 1;
            assert(text@ =~= start + row_of(slots@, k as int));
        }
        text.append("]\n");
        let ghost head = text@;
        assert(head =~= head_of(shader, dims, bindings@.len(), slots@));
        let mut i: usize = 0;
        assert(text@ =~= head + self.dump_lines(bindings@, reads@, 0));
        while i < bindings.len()
            invariant
                i <= bindings.len(),
                reads@.len() == bindings@.len(),
                text@ == head + self.dump_lines(bindings@, reads@, i as int),
            decreases bindings.len() - i,
        {
            self.append_line(&mut text, &bindings[i], i, reads[i]);
            i = i + 1;
            assert(text@ =~= head + self.dump_lines(bindings@, reads@, i as int));
        }
        text
    }
}

} // verus!
