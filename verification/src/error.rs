use vstd::prelude::*;

verus! {

/// The five GATT attributes an ANCS session needs, in the order in which
/// their presence is checked.
#[derive(Debug, Clone, Copy, PartialEq, Eq, Structural)]
pub enum RequiredCharacteristic {
    NotificationSource,
    NotificationSourceCCC,
    ControlPoint,
    DataSource,
    DataSourceCCC,
}

impl RequiredCharacteristic {
    /// The place of this attribute in the order in which presence is
    /// checked, from 0.
    pub open spec fn rank(self) -> nat {
        match self {
            RequiredCharacteristic::NotificationSource => 0,
            RequiredCharacteristic::NotificationSourceCCC => 1,
            RequiredCharacteristic::ControlPoint => 2,
            RequiredCharacteristic::DataSource => 3,
            RequiredCharacteristic::DataSourceCCC => 4,
        }
    }
}

/// Everything that can go wrong in the client.
#[derive(Debug, Clone, PartialEq, Eq)]
pub enum AncsError {
    /// No known peer advertises the ANCS service.
    DeviceNotFound,
    /// Every connection attempt failed; carries the cause of the last one.
    ConnectFailed(String),
    /// The peer's ANCS service lacks a required attribute.
    MissingCharacteristic(RequiredCharacteristic),
    /// A notification-source buffer is not exactly eight bytes long.
    InvalidEventLength,
    /// The first byte of a notification-source buffer names no event kind.
    InvalidEventId,
    /// The operator refused a pairing confirmation.
    Rejected,
    /// The peer could not be marked trusted; pairing goes on regardless.
    TrustSetFailed,
    /// The notification stream ended.
    StreamTerminated,
}

} // verus!
