use std::collections::HashMap;
use vstd::prelude::*;
use vstd::std_specs::iter::IteratorSpec;

use crate::error::AncsError;
use crate::event::{decoded, EventID, Notification};

verus! {

broadcast use vstd::std_specs::hash::group_hash_axioms;

/// The store after `event` has been dispatched into it: an added or modified
/// notification replaces whatever was kept under its UID, a removed one
/// leaves the store (and nothing changes if it was not there).
pub open spec fn applied(store: Map<u32, Notification>, event: Notification) -> Map<
    u32,
    Notification,
> {
    match event.event_id {
        EventID::NotificationAdded => store.insert(event.notification_uid, event),
        EventID::NotificationModified => store.insert(event.notification_uid, event),
        EventID::NotificationRemoved => store.remove(event.notification_uid),
    }
}

/// The store after an incoming buffer has been handled: a buffer that does
/// not decode changes nothing.
pub open spec fn received(store: Map<u32, Notification>, bytes: Seq<u8>) -> Map<
    u32,
    Notification,
> {
    match decoded(bytes) {
        Ok(event) => applied(store, event),
        Err(_) => store,
    }
}

/// The notifications that are currently active on the peer, by UID. The
/// latest event written for a UID is the one kept.
pub struct NotificationStore {
    notifications: HashMap<u32, Notification>,
}

impl View for NotificationStore {
    type V = Map<u32, Notification>;

    closed spec fn view(&self) -> Map<u32, Notification> {
        self.notifications@
    }
}

impl NotificationStore {
    /// An empty store.
    pub fn new() -> (store: NotificationStore)
        ensures
            store@ == Map::<u32, Notification>::empty(),
    {
        NotificationStore { notifications: HashMap::new() }
    }

    /// Keeps `event` under `uid`, in place of whatever was kept there.
    pub fn insert(&mut self, uid: u32, event: Notification)
        ensures
            final(self)@ == old(self)@.insert(uid, event),
    {
        self.notifications.insert(uid, event);
    }

    /// Forgets what is kept under `uid`; nothing happens if nothing is.
    pub fn remove(&mut self, uid: u32)
        ensures
            final(self)@ == old(self)@.remove(uid),
            !final(self)@.contains_key(uid),
    {
        self.notifications.remove(&uid);
    }

    /// The event kept under `uid`, if any.
    pub fn get(&self, uid: u32) -> (event: Option<Notification>)
        ensures
            event == if self@.contains_key(uid) {
                Some(self@[uid])
            } else {
                None
            },
    {
        match self.notifications.get(&uid) {
            Some(event) => Some(*event),
            None => None,
        }
    }

    /// The number of notifications kept.
    pub fn len(&self) -> (count: usize)
        ensures
            count == self@.len(),
    {
        self.notifications.len()
    }

    /// Whether no notification is kept.
    pub fn is_empty(&self) -> (empty: bool)
        ensures
            empty == (self@.len() == 0),
            empty == (self@ == Map::<u32, Notification>::empty()),
    {
        let empty = self.notifications.len() == 0;
        proof {
            if empty {
                assert(self@ =~= Map::<u32, Notification>::empty());
            }
        }
        empty
    }

    /// A copy of everything kept, as pairs of UID and event in no
    /// particular order: each stored pair once, and nothing else.
    pub fn snapshot(&self) -> (pairs: Vec<(u32, Notification)>)
        ensures
            pairs@.len() == self@.len(),
            pairs@.no_duplicates(),
            forall|i: int|
                0 <= i < pairs@.len() ==> self@.contains_key((#[trigger] pairs@[i]).0)
                    && self@[pairs@[i].0] == pairs@[i].1,
            forall|uid: u32| #[trigger]
                self@.contains_key(uid) ==> pairs@.contains((uid, self@[uid])),
    {
        let mut pairs: Vec<(u32, Notification)> = Vec::new();
        let entries = self.notifications.iter();
        let ghost all = entries.remaining();
        for entry in it: entries
            invariant
                it.seq() == all,
                pairs@.len() == it.index(),
                forall|i: int|
                    0 <= i < pairs@.len() ==> (#[trigger] pairs@[i]).0 == *all[i].0 && pairs@[i].1
                        == *all[i].1,
        {
            let (uid, event) = entry;
            pairs.push((*uid, *event));
        }
        proof {
            assert forall|uid: u32| #[trigger] self@.contains_key(uid) implies pairs@.contains(
                (uid, self@[uid]),
            ) by {
                let wanted = (&uid, &self@[uid]);
                let i = choose|i: int| 0 <= i < all.len() && all[i] == wanted;
                assert(pairs@[i] == (uid, self@[uid]));
            }
        }
        pairs
    }

    /// Dispatches one decoded event: see [`applied`].
    pub fn apply(&mut self, event: Notification)
        ensures
            final(self)@ == applied(old(self)@, event),
    {
        match event.event_id {
            EventID::NotificationAdded => self.insert(event.notification_uid, event),
            EventID::NotificationModified => self.insert(event.notification_uid, event),
            EventID::NotificationRemoved => self.remove(event.notification_uid),
        }
    }

    /// Decodes one incoming buffer and dispatches the event. A buffer that
    /// does not decode leaves the store as it was; the error says why, so
    /// that the caller can report it and go on.
    pub fn receive(&mut self, bytes: &[u8]) -> (result: Result<Notification, AncsError>)
        ensures
            result == decoded(bytes@),
            final(self)@ == received(old(self)@, bytes@),
    {
        match Notification::from_bytes(bytes) {
            Ok(event) => {
                self.apply(event);
                Ok(event)
            },
            Err(error) => Err(error),
        }
    }
}

/// An added notification that is then modified is kept once, as modified:
/// the store ends as if only the modification had been written.
pub proof fn lemma_add_then_modify(
    store: Map<u32, Notification>,
    added: Notification,
    modified: Notification,
)
    requires
        added.event_id == EventID::NotificationAdded,
        modified.event_id == EventID::NotificationModified,
        added.notification_uid == modified.notification_uid,
    ensures
        applied(applied(store, added), modified) == store.insert(
            modified.notification_uid,
            modified,
        ),
        applied(applied(store, added), modified).contains_key(modified.notification_uid),
        applied(applied(store, added), modified)[modified.notification_uid] == modified,
        applied(applied(store, added), modified).remove(modified.notification_uid)
            == store.remove(modified.notification_uid),
{
}

/// The order in which two different UIDs are written does not matter, and of
/// two writes for one UID the later is the one kept.
pub proof fn lemma_latest_write_wins(
    store: Map<u32, Notification>,
    uid: u32,
    other: u32,
    earlier: Notification,
    later: Notification,
)
    ensures
        store.insert(uid, earlier).insert(uid, later) == store.insert(uid, later),
        uid != other ==> store.insert(uid, earlier).insert(other, later) == store.insert(
            other,
            later,
        ).insert(uid, earlier),
{
}

/// Removing a UID twice is the same as removing it once, whether or not
/// anything was kept under it, and leaves it absent.
pub proof fn lemma_remove_idempotent(store: Map<u32, Notification>, uid: u32)
    ensures
        store.remove(uid).remove(uid) == store.remove(uid),
        !store.remove(uid).contains_key(uid),
        !store.contains_key(uid) ==> store.remove(uid) == store,
{
}

} // verus!
