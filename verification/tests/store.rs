use ancs::error::AncsError;
use ancs::event::{EventID, Notification};
use ancs::store::NotificationStore;

fn event(kind: EventID, uid: u32, flags: u8) -> Notification {
    Notification {
        event_id: kind,
        event_flags: flags,
        category_id: 1,
        category_count: 2,
        notification_uid: uid,
    }
}

#[test]
fn new_store_is_empty() {
    let store = NotificationStore::new();
    assert_eq!(store.len(), 0);
    assert!(store.is_empty());
    assert_eq!(store.get(0), None);
    assert!(store.snapshot().is_empty());
}

#[test]
fn added_then_modified_leaves_one_entry() {
    for uid in [0u32, 1, 77, u32::MAX] {
        let mut store = NotificationStore::new();
        let added = event(EventID::NotificationAdded, uid, 1);
        let modified = event(EventID::NotificationModified, uid, 2);
        store.insert(uid, added);
        assert_eq!(store.get(uid), Some(added));
        store.insert(uid, modified);
        assert_eq!(store.len(), 1);
        assert_eq!(store.get(uid), Some(modified));
        assert_eq!(store.snapshot(), vec![(uid, modified)]);
    }
}

#[test]
fn added_then_modified_through_dispatch() {
    let mut store = NotificationStore::new();
    store.apply(event(EventID::NotificationAdded, 5, 1));
    store.apply(event(EventID::NotificationAdded, 6, 1));
    store.apply(event(EventID::NotificationModified, 5, 9));
    assert_eq!(store.len(), 2);
    assert_eq!(store.get(5), Some(event(EventID::NotificationModified, 5, 9)));
    assert_eq!(store.get(6), Some(event(EventID::NotificationAdded, 6, 1)));
}

#[test]
fn modified_without_added_is_kept() {
    let mut store = NotificationStore::new();
    store.apply(event(EventID::NotificationModified, 3, 4));
    assert_eq!(store.get(3), Some(event(EventID::NotificationModified, 3, 4)));
}

#[test]
fn remove_twice_after_insert() {
    let mut store = NotificationStore::new();
    store.insert(8, event(EventID::NotificationAdded, 8, 0));
    store.insert(9, event(EventID::NotificationAdded, 9, 0));
    store.remove(8);
    assert_eq!(store.get(8), None);
    assert_eq!(store.len(), 1);
    store.remove(8);
    assert_eq!(store.get(8), None);
    assert_eq!(store.len(), 1);
    assert_eq!(store.get(9), Some(event(EventID::NotificationAdded, 9, 0)));
}

#[test]
fn remove_twice_without_insert() {
    let mut store = NotificationStore::new();
    store.remove(8);
    store.remove(8);
    assert_eq!(store.get(8), None);
    assert!(store.is_empty());
}

#[test]
fn removed_event_for_unknown_uid_changes_nothing() {
    let mut store = NotificationStore::new();
    store.apply(event(EventID::NotificationAdded, 1, 0));
    store.apply(event(EventID::NotificationRemoved, 2, 0));
    assert_eq!(store.len(), 1);
    store.apply(event(EventID::NotificationRemoved, 1, 0));
    assert!(store.is_empty());
}

#[test]
fn snapshot_holds_each_entry_once() {
    let mut store = NotificationStore::new();
    for uid in 0..50u32 {
        store.insert(uid, event(EventID::NotificationAdded, uid, (uid % 7) as u8));
    }
    store.remove(10);
    store.insert(11, event(EventID::NotificationModified, 11, 99));
    let mut pairs = store.snapshot();
    pairs.sort_by_key(|pair| pair.0);
    assert_eq!(pairs.len(), 49);
    assert_eq!(store.len(), 49);
    let mut expected = Vec::new();
    for uid in 0..50u32 {
        if uid == 10 {
            continue;
        }
        if uid == 11 {
            expected.push((uid, event(EventID::NotificationModified, 11, 99)));
        } else {
            expected.push((uid, event(EventID::NotificationAdded, uid, (uid % 7) as u8)));
        }
    }
    assert_eq!(pairs, expected);
}

#[test]
fn store_keeps_the_event_under_the_uid_given() {
    let mut store = NotificationStore::new();
    store.insert(1, event(EventID::NotificationAdded, 2, 0));
    assert_eq!(store.get(1), Some(event(EventID::NotificationAdded, 2, 0)));
    assert_eq!(store.get(2), None);
}

#[test]
fn receive_decodes_and_dispatches() {
    let mut store = NotificationStore::new();
    let added = store.receive(&[0, 1, 2, 3, 4, 0, 0, 0]);
    assert_eq!(
        added,
        Ok(Notification {
            event_id: EventID::NotificationAdded,
            event_flags: 1,
            category_id: 2,
            category_count: 3,
            notification_uid: 4,
        })
    );
    assert_eq!(store.get(4), Some(added.unwrap()));
    let modified = store.receive(&[1, 8, 2, 3, 4, 0, 0, 0]).unwrap();
    assert_eq!(store.len(), 1);
    assert_eq!(store.get(4), Some(modified));
    assert_eq!(modified.event_flags, 8);
    store.receive(&[2, 0, 0, 0, 4, 0, 0, 0]).unwrap();
    assert!(store.is_empty());
}

#[test]
fn receive_skips_what_does_not_decode() {
    let mut store = NotificationStore::new();
    store.receive(&[0, 1, 2, 3, 4, 0, 0, 0]).unwrap();
    assert_eq!(store.receive(&[0, 1, 2]), Err(AncsError::InvalidEventLength));
    assert_eq!(store.receive(&[7, 1, 2, 3, 4, 0, 0, 0]), Err(AncsError::InvalidEventId));
    assert_eq!(store.receive(&[]), Err(AncsError::InvalidEventLength));
    assert_eq!(store.len(), 1);
    assert_eq!(store.get(4).unwrap().event_id, EventID::NotificationAdded);
}

#[test]
fn order_of_writes_for_different_uids_does_not_matter() {
    let mut one = NotificationStore::new();
    one.insert(1, event(EventID::NotificationAdded, 1, 0));
    one.insert(2, event(EventID::NotificationModified, 2, 5));
    let mut other = NotificationStore::new();
    other.insert(2, event(EventID::NotificationModified, 2, 5));
    other.insert(1, event(EventID::NotificationAdded, 1, 0));
    let mut left = one.snapshot();
    let mut right = other.snapshot();
    left.sort_by_key(|pair| pair.0);
    right.sort_by_key(|pair| pair.0);
    assert_eq!(left, right);
    assert_eq!(left.len(), 2);
}
