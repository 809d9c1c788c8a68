use vstd::prelude::*;

use crate::error::AncsError;
use crate::wire::{read_u32_le, u32_from_le};

verus! {

/// Length in bytes of a notification-source event.
pub const EVENT_LENGTH: usize = 8;

/// What happened to a notification on the peer.
#[derive(Debug, Clone, Copy, PartialEq, Eq, Structural)]
pub enum EventID {
    NotificationAdded,
    NotificationModified,
    NotificationRemoved,
}

impl EventID {
    /// The byte that stands for this event kind on the wire.
    pub open spec fn ordinal(self) -> u8 {
        match self {
            EventID::NotificationAdded => 0,
            EventID::NotificationModified => 1,
            EventID::NotificationRemoved => 2,
        }
    }

    /// The event kind that `n` stands for, if any.
    pub open spec fn of_ordinal(n: u8) -> Option<EventID> {
        if n == 0 {
            Some(EventID::NotificationAdded)
        } else if n == 1 {
            Some(EventID::NotificationModified)
        } else if n == 2 {
            Some(EventID::NotificationRemoved)
        } else {
            None
        }
    }

    /// Event kind for a wire byte: `Some` for 0, 1 and 2, `None` above.
    pub fn from_u8(n: u8) -> (kind: Option<EventID>)
        ensures
            kind == EventID::of_ordinal(n),
            kind is Some <==> n <= 2,
            kind matches Some(k) ==> k.ordinal() == n,
    {
        match n {
            0 => Some(EventID::NotificationAdded),
            1 => Some(EventID::NotificationModified),
            2 => Some(EventID::NotificationRemoved),
            _ => None,
        }
    }

    /// The wire byte of this event kind.
    pub fn to_u8(self) -> (n: u8)
        ensures
            n == self.ordinal(),
            EventID::of_ordinal(n) == Some(self),
    {
        match self {
            EventID::NotificationAdded => 0,
            EventID::NotificationModified => 1,
            EventID::NotificationRemoved => 2,
        }
    }
}

/// One decoded notification-source event.
#[derive(Debug, Clone, Copy, PartialEq, Eq, Structural)]
pub struct Notification {
    pub event_id: EventID,
    pub event_flags: u8,
    pub category_id: u8,
    pub category_count: u8,
    pub notification_uid: u32,
}

/// What an incoming buffer decodes to.
///
/// A buffer of any length but eight is refused with `InvalidEventLength`.
/// An eight-byte buffer whose first byte is above 2 is refused with
/// `InvalidEventId`. Otherwise bytes 0 to 3 are the event kind, the flags,
/// the category and the category count, and bytes 4 to 7 spell the
/// notification UID, least significant byte first.
pub open spec fn decoded(bytes: Seq<u8>) -> Result<Notification, AncsError> {
    if bytes.len() != EVENT_LENGTH {
        Err(AncsError::InvalidEventLength)
    } else {
        match EventID::of_ordinal(bytes[0]) {
            None => Err(AncsError::InvalidEventId),
            Some(event_id) => Ok(
                Notification {
                    event_id,
                    event_flags: bytes[1],
                    category_id: bytes[2],
                    category_count: bytes[3],
                    notification_uid: u32_from_le(bytes.subrange(4, 8)) as u32,
                },
            ),
        }
    }
}

impl Notification {
    /// Decodes a notification-source event.
    pub fn from_bytes(bytes: &[u8]) -> (result: Result<Notification, AncsError>)
        ensures
            result == decoded(bytes@),
            bytes@.len() != 8 ==> result == Err::<Notification, AncsError>(
                AncsError::InvalidEventLength,
            ),
            bytes@.len() == 8 && bytes@[0] >= 3 ==> result == Err::<Notification, AncsError>(
                AncsError::InvalidEventId,
            ),
            bytes@.len() == 8 && bytes@[0] < 3 ==> result is Ok,
    {
        if bytes.len() != EVENT_LENGTH {
            return Err(AncsError::InvalidEventLength);
        }
        match EventID::from_u8(bytes[0]) {
            None => Err(AncsError::InvalidEventId),
            Some(event_id) => Ok(
                Notification {
                    event_id,
                    event_flags: bytes[1],
                    category_id: bytes[2],
                    category_count: bytes[3],
                    notification_uid: read_u32_le(bytes, 4),
                },
            ),
        }
    }
}

} // verus!
