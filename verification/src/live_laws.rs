//! What producers and consumers of live textures can count on.

use crate::live_texture::{
    entry_polled, front_after, is_settled, key_at_most, newest_settled_wins, next_number, pending_work, LiveEntry,
    LiveTextureExchange, LiveTextureId, Slot,
};
use vstd::prelude::*;

verus! {

/// Taking note of settled work frees the slots whose work has settled and leaves the others as they are. No slot
/// changes its texture or its number, and the mailbox stays the same otherwise.
pub proof fn settled_slots_are_free_again(before: LiveEntry, after: LiveEntry, settled: Seq<u64>, i: int)
    requires
        entry_polled(before, after, settled),
        0 <= i < before.slots@.len(),
    ensures
        after.slots@.len() == before.slots@.len(),
        after.slots@[i].texture == before.slots@[i].texture,
        after.slots@[i].seq == before.slots@[i].seq,
        match before.slots@[i].pending {
            Some(work) if settled.contains(work) => after.slots@[i].pending is None && !after.slots@[i].reserved,
            _ => after.slots@[i] == before.slots@[i],
        },
        after.sample == before.sample,
        after.image == before.image,
        after.width == before.width,
        after.height == before.height,
        after.next_seq == before.next_seq,
{
}

/// The front moves only to a slot whose work has settled, and never to an older publication. Where no work of the
/// mailbox has settled, the front stays.
pub proof fn fronts_move_to_newer_publications(before: LiveEntry, after: LiveEntry, settled: Seq<u64>)
    requires
        entry_polled(before, after, settled),
    ensures
        after.front_seq >= before.front_seq,
        after.front != before.front ==> (after.front matches Some(f) && f < before.slots@.len() && (
        before.slots@[f as int].pending matches Some(work) && settled.contains(work)) && after.front_seq
            == before.slots@[f as int].seq),
        (forall|i: int|
            0 <= i < before.slots@.len() ==> !((#[trigger] before.slots@[i]).pending matches Some(work)
                && settled.contains(work))) ==> after.front == before.front && after.front_seq == before.front_seq,
{
    newest_settled_wins(before, settled, before.slots@.len() as int);
    if forall|i: int|
        0 <= i < before.slots@.len() ==> !((#[trigger] before.slots@[i]).pending matches Some(work)
            && settled.contains(work)) {
        lemma_front_stays(before, settled, before.slots@.len() as int);
    }
}

proof fn lemma_front_stays(entry: LiveEntry, settled: Seq<u64>, n: int)
    requires
        0 <= n <= entry.slots@.len(),
        forall|i: int| 0 <= i < n ==> !is_settled(#[trigger] entry.slots@[i], settled),
    ensures
        front_after(entry, settled, n) == (entry.front, entry.front_seq),
    decreases n,
{
    if n > 0 {
        lemma_front_stays(entry, settled, n - 1);
        assert(!is_settled(entry.slots@[n - 1], settled));
    }
}

/// Work that is published becomes what consumers see once it has settled: the front is then the slot that the work
/// wrote, unless a later publication has settled too. The slot can be written again once another front follows.
pub proof fn published_work_becomes_the_front(
    exchange: LiveTextureExchange,
    mid: LiveTextureExchange,
    next: LiveTextureExchange,
    id: LiveTextureId,
    slot: usize,
    work: u64,
    settled: Seq<u64>,
)
    requires
        exchange.has(id),
        slot < exchange.entry(id).slots@.len(),
        exchange.attached(mid, id, slot, work),
        mid.polled(next, settled),
        settled.contains(work),
        exchange.entry(id).front_seq <= exchange.entry(id).next_seq,
        forall|i: int|
            0 <= i < exchange.entry(id).slots@.len() ==> (#[trigger] exchange.entry(id).slots@[i]).seq < exchange.entry(
                id,
            ).next_seq,
    ensures
        next.entry(id).front == Some(slot),
        next.entry(id).front_seq == exchange.entry(id).next_seq,
        next.spec_front_texture(id) == Some(exchange.entry(id).slots@[slot as int].texture),
        next.entry(id).slots@[slot as int].pending is None,
        !next.entry(id).slots@[slot as int].reserved,
        next.entry(id).sample == exchange.entry(id).sample,
        next.dropped_publishes == exchange.dropped_publishes,
{
    let entry = mid.entry(id);
    assert(mid.entries@.dom().contains(id.0));
    assert(entry_polled(entry, next.entry(id), settled));
    newest_settled_wins(entry, settled, entry.slots@.len() as int);
    assert(is_settled(entry.slots@[slot as int], settled));
    settled_slots_are_free_again(entry, next.entry(id), settled, slot as int);
    lemma_newest_front(entry, settled, entry.slots@.len() as int, slot as int);
}

proof fn lemma_newest_front(entry: LiveEntry, settled: Seq<u64>, n: int, slot: int)
    requires
        0 <= n <= entry.slots@.len(),
        0 <= slot < entry.slots@.len(),
        is_settled(entry.slots@[slot], settled),
        entry.front_seq <= entry.slots@[slot].seq,
        forall|i: int|
            0 <= i < entry.slots@.len() && i != slot ==> (#[trigger] entry.slots@[i]).seq < entry.slots@[slot].seq,
    ensures
        front_after(entry, settled, n).1 <= entry.slots@[slot].seq,
        slot < n ==> front_after(entry, settled, n) == (Some(slot as usize), entry.slots@[slot].seq),
    decreases n,
{
    if n > 0 {
        lemma_newest_front(entry, settled, n - 1, slot);
        if n - 1 != slot {
            assert(entry.slots@[n - 1].seq < entry.slots@[slot].seq);
        }
    }
}

/// Until its work has settled, a publication changes nothing that consumers see.
pub proof fn unsettled_work_stays_hidden(
    exchange: LiveTextureExchange,
    mid: LiveTextureExchange,
    next: LiveTextureExchange,
    id: LiveTextureId,
    slot: usize,
    work: u64,
)
    requires
        exchange.has(id),
        slot < exchange.entry(id).slots@.len(),
        exchange.attached(mid, id, slot, work),
        mid.polled(next, seq![]),
    ensures
        next.entry(id).front == exchange.entry(id).front,
        next.entry(id).front_seq == exchange.entry(id).front_seq,
        next.entry(id).slots@[slot as int].pending == Some(work),
        next.entry(id).slots@[slot as int].seq == exchange.entry(id).next_seq,
        next.entry(id).slots@[slot as int].texture == exchange.entry(id).slots@[slot as int].texture,
        exchange.entry(id).next_seq < u64::MAX ==> next.entry(id).next_seq == exchange.entry(id).next_seq + 1,
        forall|i: int|
            0 <= i < exchange.entry(id).slots@.len() && i != slot ==> #[trigger] next.entry(id).slots@[i]
                == exchange.entry(id).slots@[i],
        forall|other: LiveTextureId|
            other != id && exchange.has(other) ==> (#[trigger] next.entry(other)).front == exchange.entry(other).front,
{
    let none: Seq<u64> = seq![];
    let entry = mid.entry(id);
    assert(mid.entries@.dom().contains(id.0));
    assert(entry_polled(entry, next.entry(id), none));
    assert forall|i: int| 0 <= i < entry.slots@.len() implies next.entry(id).slots@[i] == entry.slots@[i] by {
        settled_slots_are_free_again(entry, next.entry(id), none, i);
    }
    assert forall|i: int| 0 <= i < entry.slots@.len() implies !is_settled(#[trigger] entry.slots@[i], none) by {}
    lemma_front_stays(entry, none, entry.slots@.len() as int);
    assert forall|other: LiveTextureId| other != id && exchange.has(other) implies (#[trigger] next.entry(other)).front
        == exchange.entry(other).front by {
        assert(mid.entries@.dom().contains(other.0));
        assert(entry_polled(mid.entry(other), next.entry(other), none));
        assert forall|i: int| 0 <= i < mid.entry(other).slots@.len() implies !is_settled(
            #[trigger] mid.entry(other).slots@[i],
            none,
        ) by {}
        lemma_front_stays(mid.entry(other), none, mid.entry(other).slots@.len() as int);
    }
}

/// A publication is dropped only where every slot is the front, held, or being written, and each one that is dropped
/// is counted. Otherwise a slot is held for the producer, and nothing is counted.
pub proof fn publications_are_dropped_only_when_full(
    exchange: LiveTextureExchange,
    next: LiveTextureExchange,
    settled: Seq<u64>,
    id: LiveTextureId,
    slot: Option<usize>,
)
    requires
        exchange.has(id),
        exchange.publish_begun(next, settled, id, slot),
        exchange.dropped_publishes < u64::MAX,
    ensures
        slot is None ==> next.dropped_publishes == exchange.dropped_publishes + 1,
        slot is Some ==> next.dropped_publishes == exchange.dropped_publishes,
        slot is None ==> forall|i: int|
            0 <= i < next.entry(id).slots@.len() ==> next.entry(id).front == Some(i as usize) || (
            #[trigger] next.entry(id).slots@[i]).reserved || next.entry(id).slots@[i].pending is Some,
        slot matches Some(s) ==> {
            &&& s < next.entry(id).slots@.len()
            &&& next.entry(id).slots@[s as int].reserved
            &&& next.entry(id).slots@[s as int].texture == exchange.entry(id).slots@[s as int].texture
            &&& forall|i: int|
                0 <= i < s ==> next.entry(id).front == Some(i as usize) || (#[trigger] next.entry(id).slots@[i]).reserved
                    || next.entry(id).slots@[i].pending is Some
        },
        next.entry(id).slots@.len() == exchange.entry(id).slots@.len(),
        next.entry(id).next_seq == exchange.entry(id).next_seq,
{
    let mid = choose|mid: LiveTextureExchange|
        {
            &&& #[trigger] exchange.polled(mid, settled)
            &&& match slot {
                Some(s) => {
                    &&& mid.entry(id).is_free(s as int)
                    &&& forall|k: int| 0 <= k < s ==> !mid.entry(id).is_free(k)
                    &&& next.entry(id).slots@ == mid.entry(id).slots@.update(
                        s as int,
                        Slot { reserved: true, ..mid.entry(id).slots@[s as int] },
                    )
                    &&& next.entry(id) == (LiveEntry { slots: next.entry(id).slots, ..mid.entry(id) })
                    &&& mid.only_entry_changed(next, id)
                },
                None => {
                    &&& forall|k: int| !mid.entry(id).is_free(k)
                    &&& next == (LiveTextureExchange {
                        dropped_publishes: (exchange.dropped_publishes + 1) as u64,
                        ..mid
                    })
                },
            }
        };
    assert(exchange.entries@.dom().contains(id.0));
    assert(entry_polled(exchange.entry(id), mid.entry(id), settled));
    assert(mid.entry(id).slots.len() == mid.entry(id).slots@.len());
    if slot is None {
        assert forall|i: int| 0 <= i < next.entry(id).slots@.len() implies next.entry(id).front == Some(i as usize) || (
        #[trigger] next.entry(id).slots@[i]).reserved || next.entry(id).slots@[i].pending is Some by {
            assert(!mid.entry(id).is_free(i));
        }
    } else {
        let s = slot->0 as int;
        settled_slots_are_free_again(exchange.entry(id), mid.entry(id), settled, s);
        assert forall|i: int| 0 <= i < s implies next.entry(id).front == Some(i as usize) || (
        #[trigger] next.entry(id).slots@[i]).reserved || next.entry(id).slots@[i].pending is Some by {
            assert(!mid.entry(id).is_free(i));
        }
    }
}

/// Freeing a mailbox waits for all the work that has not settled, and for nothing else.
pub proof fn unsettled_work_is_waited_for(slots: Seq<Slot>, work: u64)
    ensures
        pending_work(slots).contains(work) <==> exists|i: int|
            0 <= i < slots.len() && (#[trigger] slots[i]).pending == Some(work),
        pending_work(slots).len() <= slots.len(),
    decreases slots.len(),
{
    if slots.len() > 0 {
        let rest = slots.drop_last();
        let earlier = pending_work(rest);
        let list = pending_work(slots);
        unsettled_work_is_waited_for(rest, work);
        if list.contains(work) {
            let k = choose|k: int| 0 <= k < list.len() && list[k] == work;
            if k < earlier.len() {
                assert(earlier[k] == work);
                let i = choose|i: int| 0 <= i < rest.len() && (#[trigger] rest[i]).pending == Some(work);
                assert(slots[i].pending == Some(work));
            } else {
                assert(slots[slots.len() - 1].pending == Some(work));
            }
        }
        if exists|i: int| 0 <= i < slots.len() && (#[trigger] slots[i]).pending == Some(work) {
            let i = choose|i: int| 0 <= i < slots.len() && (#[trigger] slots[i]).pending == Some(work);
            if i < rest.len() {
                assert(rest[i].pending == Some(work));
                let k = choose|k: int| 0 <= k < earlier.len() && earlier[k] == work;
                assert(list[k] == work);
            } else {
                assert(list.last() == work);
            }
        }
    }
}

/// Sample keys are ordered by width first, then by height, then by texture; no two different ones are in both orders.
pub proof fn sample_keys_are_ordered(a: (u32, u32, u64), b: (u32, u32, u64), c: (u32, u32, u64))
    ensures
        a.0 < b.0 ==> key_at_most(a, b) && !key_at_most(b, a),
        a.0 == b.0 && a.1 < b.1 ==> key_at_most(a, b) && !key_at_most(b, a),
        a.0 == b.0 && a.1 == b.1 ==> (key_at_most(a, b) <==> a.2 <= b.2),
        key_at_most(a, b) && key_at_most(b, a) ==> a == b,
        key_at_most(a, b) || key_at_most(b, a),
        key_at_most(a, b) && key_at_most(b, c) ==> key_at_most(a, c),
{
}

/// Publications are numbered one after the other; the numbers start over after the last one.
pub proof fn publications_are_numbered(seq: u64)
    ensures
        seq < u64::MAX ==> next_number(seq) == seq + 1,
        next_number(u64::MAX) == 0,
{
}

} // verus!
