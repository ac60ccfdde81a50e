use ekrano::live_texture::{LiveTextureExchange, LiveTextureId};
use ekrano::resource_proxy::{TextureFlags, TextureKind};
use ekrano::Error;

fn exchange() -> (LiveTextureExchange, LiveTextureId) {
    let mut x = LiveTextureExchange::new(false);
    let request = x.request_live(0, 20);
    assert_eq!((request.width, request.height, request.textures), (1, 20, 4));
    assert_eq!(request.texture().kind, TextureKind::DirectInterpolated);
    assert_eq!(request.texture().flags, TextureFlags { copy_dst: true, copy_src: true });
    let (image, replaced) = x.insert_live(request, 77, vec![10, 11, 12], 13);
    assert!(replaced.is_none());
    assert_eq!((image.id, image.width, image.height), (77, 1, 20));
    (x, request.id)
}

fn gpu_text<T>(r: Result<T, Error>) -> String {
    match r {
        Err(Error::Gpu(text)) => text,
        _ => panic!("expected an error"),
    }
}

#[test]
fn mailboxes_are_found_by_id_and_image() {
    let (x, id) = exchange();
    assert_eq!(id.to_raw(), 1);
    assert_eq!(x.next_id, 2);
    assert_eq!(x.id_for_blob(77), Some(id));
    assert_eq!(x.id_for_blob(78), None);
    assert!(x.is_live_blob(77));
    assert!(!x.contains_blob(78));
    assert_eq!(x.image_data(id).map(|i| i.id), Some(77));
    assert!(x.image_data(LiveTextureId(9)).is_none());
    assert_eq!(x.live_blob_ids(), vec![77]);
    assert_eq!(x.iter_ids(), vec![id]);
    assert_eq!(x.sample_texture(id), Some(13));
    assert_eq!(x.slot_texture(id, 2), Some(12));
    assert_eq!(x.slot_texture(id, 3), None);
    assert_eq!(LiveTextureExchange::new(true).depth, 2);
}

#[test]
fn ids_start_over_at_one() {
    let mut x = LiveTextureExchange::new(false);
    x.next_id = u64::MAX;
    assert_eq!(x.request_live(4, 4).id, LiveTextureId(u64::MAX));
    assert_eq!(x.next_id, 1);
}

#[test]
fn a_slot_becomes_the_front_once_its_work_settles() {
    let (mut x, id) = exchange();
    assert_eq!(x.front_texture(id), None);
    assert_eq!(x.sync_sample_mirror(id, &[]), None);
    let slot = x.begin_publish(id, &[]).unwrap().unwrap();
    assert_eq!(slot, 0);
    x.complete_publish(id, slot, 100, &[]).unwrap();
    assert_eq!(x.front_texture(id), None);
    assert!(x.settled_fronts().is_empty());
    x.poll_settlement(&[100]);
    assert_eq!(x.front_texture(id), Some(10));
    assert_eq!(x.sync_sample_mirror(id, &[]), Some((10, 13)));
    assert_eq!(x.settled_fronts(), vec![(id, 77, 1, 20)]);
}

#[test]
fn the_newest_settled_publication_wins() {
    let (mut x, id) = exchange();
    for (slot, work) in [(0, 100), (1, 101), (2, 102)] {
        assert_eq!(x.begin_publish(id, &[]).unwrap(), Some(slot));
        x.complete_publish(id, slot, work, &[]).unwrap();
    }
    x.poll_settlement(&[101]);
    assert_eq!(x.front_texture(id), Some(11));
    x.poll_settlement(&[100]);
    assert_eq!(x.front_texture(id), Some(11), "an older publication does not replace the front");
    x.poll_settlement(&[102]);
    assert_eq!(x.front_texture(id), Some(12));
}

#[test]
fn the_front_is_never_handed_out() {
    let (mut x, id) = exchange();
    let slot = x.begin_publish(id, &[]).unwrap().unwrap();
    x.complete_publish_ready(id, slot).unwrap();
    assert_eq!(x.front_texture(id), Some(10));
    assert_eq!(x.begin_publish(id, &[]).unwrap(), Some(1));
    assert_eq!(x.begin_publish(id, &[]).unwrap(), Some(2));
    assert_eq!(x.begin_publish(id, &[]).unwrap(), None);
    assert_eq!(x.dropped_publishes, 1);
    x.cancel_publish(id, 1);
    assert_eq!(x.begin_publish(id, &[]).unwrap(), Some(1));
}

#[test]
fn wrong_slots_are_refused() {
    let (mut x, id) = exchange();
    let other = LiveTextureId(5);
    assert_eq!(gpu_text(x.begin_publish(other, &[])), "LiveTextureExchange: unknown id LiveTextureId(5)");
    assert_eq!(gpu_text(x.complete_publish(other, 0, 1, &[])), "LiveTextureExchange: unknown id LiveTextureId(5)");
    assert_eq!(gpu_text(x.complete_publish(id, 3, 1, &[])), "LiveTextureExchange: invalid slot 3");
    assert_eq!(gpu_text(x.complete_publish(id, 0, 1, &[])), "LiveTextureExchange: slot 0 was not reserved");
    assert_eq!(gpu_text(x.complete_publish_ready(id, 0)), "LiveTextureExchange: slot 0 was not reserved");
    assert_eq!(gpu_text(x.complete_publish_ready(id, 7)), "LiveTextureExchange: invalid slot 7");
    assert_eq!(gpu_text(x.complete_publish_ready(other, 0)), "LiveTextureExchange: unknown id LiveTextureId(5)");
    let slot = x.begin_publish(id, &[]).unwrap().unwrap();
    x.complete_publish(id, slot, 1, &[]).unwrap();
    assert_eq!(gpu_text(x.complete_publish(id, slot, 2, &[])), "LiveTextureExchange: slot 0 already pending");
    assert_eq!(gpu_text(x.complete_publish_ready(id, slot)), "LiveTextureExchange: slot 0 still pending");
    x.cancel_publish(id, slot);
    assert!(x.entries[&1].slots[0].reserved, "work in flight keeps its slot");
}

#[test]
fn blits_need_the_size_of_the_mailbox() {
    let (mut x, id) = exchange();
    let text = gpu_text(x.blit_into(id, (2, 20), &[]));
    assert_eq!(text, "blit_into: size mismatch 2x20 → 1x20");
    assert!(!x.entries[&1].slots[0].reserved);
    assert_eq!(x.blit_into(id, (1, 20), &[]).unwrap(), Some((0, 10)));
    assert_eq!(x.blit_into(id, (1, 20), &[]).unwrap(), Some((1, 11)));
    assert_eq!(x.blit_into(id, (1, 20), &[]).unwrap(), Some((2, 12)));
    assert_eq!(x.blit_into(id, (1, 20), &[]).unwrap(), None);
}

#[test]
fn freed_mailboxes_leave_their_textures() {
    let (mut x, id) = exchange();
    let slot = x.begin_publish(id, &[]).unwrap().unwrap();
    x.complete_publish(id, slot, 42, &[]).unwrap();
    let freed = x.free(id).unwrap();
    assert_eq!(freed.waits, vec![42]);
    assert_eq!(freed.textures, vec![10, 11, 12, 13]);
    assert!(!x.is_live_blob(77));
    assert!(x.free(id).is_none());
}

#[test]
fn topology_keys_are_sorted_and_do_not_follow_the_front() {
    let (mut x, id) = exchange();
    let request = x.request_live(1, 10);
    x.insert_live(request, 78, vec![20, 21, 22], 23);
    let keys = x.sample_topology_keys();
    assert_eq!(keys, vec![(1, 10, 23), (1, 20, 13)]);
    let slot = x.begin_publish(id, &[]).unwrap().unwrap();
    x.complete_publish_ready(id, slot).unwrap();
    assert_eq!(x.sample_topology_keys(), keys);
}

#[test]
fn a_mailbox_that_is_set_up_again_is_handed_back() {
    let (mut x, _) = exchange();
    x.next_id = 1;
    let request = x.request_live(8, 8);
    let (_, replaced) = x.insert_live(request, 90, vec![30], 31);
    assert_eq!(replaced.map(|e| e.sample), Some(13));
    assert_eq!(x.entries.len(), 1);
    let mut blobs = x.live_blob_ids();
    blobs.sort();
    assert_eq!(blobs, vec![77, 90]);
}

#[test]
fn every_mailbox_is_listed_once() {
    let (mut x, first) = exchange();
    let request = x.request_live(4, 6);
    x.insert_live(request, 78, vec![20, 21, 22], 23);
    let mut ids: Vec<u64> = x.iter_ids().iter().map(|id| id.to_raw()).collect();
    ids.sort();
    assert_eq!(ids, vec![1, 2]);
    assert!(x.settled_fronts().is_empty());
    let slot = x.begin_publish(request.id, &[]).unwrap().unwrap();
    x.complete_publish_ready(request.id, slot).unwrap();
    assert_eq!(x.settled_fronts(), vec![(request.id, 78, 4, 6)]);
    let slot = x.begin_publish(first, &[]).unwrap().unwrap();
    x.complete_publish(first, slot, 9, &[]).unwrap();
    x.poll_settlement(&[9]);
    let mut rows = x.settled_fronts();
    rows.sort_by_key(|row| row.1);
    assert_eq!(rows, vec![(first, 77, 1, 20), (request.id, 78, 4, 6)]);
}
