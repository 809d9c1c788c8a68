use vstd::prelude::*;

use crate::error::AncsError;
use crate::resolver::{find_characteristics, resolution, CharacteristicSet, GattService};
use crate::uuids::ANCS_UUID;

verus! {

/// How many times a connection is attempted before the client gives up: the
/// first attempt and two more.
pub const MAX_CONNECT_ATTEMPTS: u8 = 3;

/// How long, in seconds, the teardown is given after a cancellation.
pub const TEARDOWN_GRACE_SECONDS: u64 = 3;

/// Where a connection stands.
#[derive(Debug, Clone, Copy, PartialEq, Eq, Structural)]
pub enum ConnectionState {
    Idle,
    Discovering,
    Connecting,
    ResolvingCharacteristics,
    Subscribing,
    Active,
    Terminated,
    Failed,
}

/// What the transport reports back to the connection manager.
#[derive(Debug, Clone, PartialEq, Eq)]
pub enum Event {
    /// The client is started.
    Start,
    /// The peers known to the transport, in its order, each as the list of
    /// service UUIDs it advertises or has cached.
    Devices(Vec<Vec<u128>>),
    /// Whether the chosen peer is connected already.
    ConnectionStatus(bool),
    /// A connection attempt, service discovery included, succeeded.
    Connected,
    /// A connection attempt failed, with its cause.
    ConnectFailed(String),
    /// The service tree discovered on the peer.
    Services(Vec<GattService>),
    /// The notification stream is open.
    Subscribed,
    /// One buffer from the notification stream.
    Notification(Vec<u8>),
    /// The notification stream ended.
    StreamEnded,
    /// The process was asked to stop.
    Cancelled,
}

/// What the connection manager asks of the transport next.
#[derive(Debug, Clone, Copy, PartialEq, Eq, Structural)]
pub enum Action {
    /// List the known peers; answered by `Event::Devices`.
    ListDevices,
    /// Say whether the peer is connected; answered by
    /// `Event::ConnectionStatus`.
    QueryConnection { device: usize },
    /// Connect and discover services as one unit; answered by
    /// `Event::Connected` or `Event::ConnectFailed`.
    Connect { device: usize },
    /// Hand over the discovered service tree; answered by `Event::Services`.
    ReadServices { device: usize },
    /// Subscribe to the change stream of the characteristic with this
    /// handle; answered by `Event::Subscribed`.
    Subscribe { characteristic: u16 },
    /// Wait for the next buffer, the end of the stream or a cancellation.
    AwaitNotification,
    /// Tear the session down and allow it this many seconds.
    Teardown { grace_seconds: u64 },
    /// Nothing is left to do: the connection has failed or ended.
    Done,
    /// The event was not expected in the present state and changed nothing.
    Ignored,
}

/// Whether a peer with these service UUIDs offers ANCS.
pub open spec fn offers_ancs(uuids: Seq<u128>) -> bool {
    uuids.contains(ANCS_UUID)
}

/// Index of the first peer in `devices` that offers ANCS.
pub open spec fn first_ancs_device(devices: Seq<Vec<u128>>) -> Option<usize>
    decreases devices.len(),
{
    if devices.len() == 0 {
        None
    } else {
        match first_ancs_device(devices.drop_last()) {
            Some(i) => Some(i),
            None => if offers_ancs(devices.last()@) {
                Some((devices.len() - 1) as usize)
            } else {
                None
            },
        }
    }
}

/// `first_ancs_device` names a peer that offers ANCS and before which none
/// does, and is `None` exactly when no peer offers it.
pub proof fn lemma_first_ancs_device(devices: Seq<Vec<u128>>)
    requires
        devices.len() <= usize::MAX,
    ensures
        match first_ancs_device(devices) {
            Some(i) => i < devices.len() && offers_ancs(devices[i as int]@) && forall|j: int|
                0 <= j < i ==> !offers_ancs(#[trigger] devices[j]@),
            None => forall|j: int| 0 <= j < devices.len() ==> !offers_ancs(#[trigger] devices[j]@),
        },
    decreases devices.len(),
{
    if devices.len() > 0 {
        let shorter = devices.drop_last();
        lemma_first_ancs_device(shorter);
        assert forall|j: int| 0 <= j < shorter.len() implies shorter[j] == devices[j] by {}
    }
}

/// Whether `uuids` holds the ANCS service UUID.
pub fn advertises_ancs(uuids: &Vec<u128>) -> (found: bool)
    ensures
        found == offers_ancs(uuids@),
{
    let mut k: usize = 0;
    while k < uuids.len()
        invariant
            k <= uuids.len(),
            forall|j: int| 0 <= j < k ==> uuids@[j] != ANCS_UUID,
        decreases uuids.len() - k,
    {
        if uuids[k] == ANCS_UUID {
            return true;
        }
        k += 1;
    }
    false
}

/// Picks the peer to connect to: the first, in the transport's order, that
/// offers ANCS. One pass, no retry.
pub fn find_device(devices: &Vec<Vec<u128>>) -> (found: Option<usize>)
    ensures
        found == first_ancs_device(devices@),
        found matches Some(i) ==> i < devices@.len() && offers_ancs(devices@[i as int]@)
            && forall|j: int| 0 <= j < i ==> !offers_ancs(#[trigger] devices@[j]@),
        found is None ==> forall|j: int|
            0 <= j < devices@.len() ==> !offers_ancs(#[trigger] devices@[j]@),
{
    let count = devices.len();
    let mut i: usize = 0;
    while i < count
        invariant
            count == devices@.len(),
            i <= count,
            first_ancs_device(devices@.take(i as int)) is None,
        decreases count - i,
    {
        proof {
            assert(devices@.take(i + 1).drop_last() =~= devices@.take(i as int));
        }
        if advertises_ancs(&devices[i]) {
            proof {
                lemma_first_found_stays(devices@, i + 1);
                lemma_first_ancs_device(devices@);
            }
            return Some(i);
        }
        i += 1;
    }
    proof {
        assert(devices@.take(i as int) =~= devices@);
        lemma_first_ancs_device(devices@);
    }
    None
}

/// Once a prefix of the peers holds one that offers ANCS, the choice is
/// made: peers after the prefix do not change it.
proof fn lemma_first_found_stays(devices: Seq<Vec<u128>>, n: int)
    requires
        0 <= n <= devices.len(),
        first_ancs_device(devices.take(n)) is Some,
    ensures
        first_ancs_device(devices) == first_ancs_device(devices.take(n)),
    decreases devices.len() - n,
{
    if n == devices.len() {
        assert(devices.take(n) =~= devices);
    } else {
        let longer = devices.take(n + 1);
        assert(longer.drop_last() =~= devices.take(n));
        lemma_first_found_stays(devices, n + 1);
    }
}

/// The connection manager as contracts see it.
pub struct ManagerView {
    /// Where the connection stands.
    pub state: ConnectionState,
    /// Index, in the list the transport gave, of the peer chosen.
    pub device: Option<usize>,
    /// How many connection attempts have been asked for.
    pub attempts: u8,
    /// The resolved handles, once there are any.
    pub characteristics: Option<CharacteristicSet>,
    /// Why the connection failed or ended, if it did so with an error.
    pub error: Option<AncsError>,
}

impl ManagerView {
    /// The manager before anything has happened.
    pub open spec fn initial() -> ManagerView {
        ManagerView {
            state: ConnectionState::Idle,
            device: None,
            attempts: 0,
            characteristics: None,
            error: None,
        }
    }

    /// What every reachable manager satisfies.
    pub open spec fn well_formed(self) -> bool {
        &&& self.attempts <= MAX_CONNECT_ATTEMPTS
        &&& match self.state {
            ConnectionState::Idle | ConnectionState::Discovering => {
                &&& self.device is None
                &&& self.attempts == 0
                &&& self.characteristics is None
                &&& self.error is None
            },
            ConnectionState::Connecting | ConnectionState::ResolvingCharacteristics => {
                &&& self.device is Some
                &&& self.characteristics is None
                &&& self.error is None
            },
            ConnectionState::Subscribing | ConnectionState::Active => {
                &&& self.device is Some
                &&& self.characteristics is Some
                &&& self.error is None
            },
            ConnectionState::Terminated => {
                &&& self.device is Some
                &&& self.characteristics is Some
                &&& (self.error is None || self.error == Some(AncsError::StreamTerminated))
            },
            ConnectionState::Failed => {
                &&& self.characteristics is None
                &&& self.error matches Some(error)
                &&& (error is DeviceNotFound || error is ConnectFailed
                    || error is MissingCharacteristic)
            },
        }
    }

    /// This manager, failed with `error`.
    pub open spec fn failed(self, error: AncsError) -> ManagerView {
        ManagerView { state: ConnectionState::Failed, error: Some(error), ..self }
    }

    /// This manager in another state.
    pub open spec fn moved_to(self, state: ConnectionState) -> ManagerView {
        ManagerView { state, ..self }
    }
}

/// The transition function of the connection manager: the manager after
/// `event`, and what it asks of the transport.
///
/// * `Idle`: `Start` begins discovery.
/// * `Discovering`: the first peer that offers ANCS is chosen; with none,
///   the connection fails with `DeviceNotFound`.
/// * `Connecting`: a peer that is connected already goes straight to
///   resolution. Otherwise a connection is attempted; a failed attempt is
///   repeated at once until `MAX_CONNECT_ATTEMPTS` have been made, and the
///   failure of the last one fails the connection with `ConnectFailed` and
///   its cause.
/// * `ResolvingCharacteristics`: the service tree is resolved; a missing
///   attribute fails the connection, a full set leads to the subscription
///   to the Notification Source.
/// * `Subscribing`: the open stream makes the connection `Active`.
/// * `Active`: each buffer is followed by the wait for the next one; the end
///   of the stream terminates the connection with `StreamTerminated`, a
///   cancellation terminates it with a teardown.
/// * `Terminated` and `Failed` are final.
///
/// An event that is not named for a state changes nothing.
pub open spec fn next(manager: ManagerView, event: Event) -> (ManagerView, Action) {
    match manager.state {
        ConnectionState::Idle => match event {
            Event::Start => (manager.moved_to(ConnectionState::Discovering), Action::ListDevices),
            _ => (manager, Action::Ignored),
        },
        ConnectionState::Discovering => match event {
            Event::Devices(devices) => match first_ancs_device(devices@) {
                Some(device) => (
                    ManagerView {
                        state: ConnectionState::Connecting,
                        device: Some(device),
                        ..manager
                    },
                    Action::QueryConnection { device },
                ),
                None => (manager.failed(AncsError::DeviceNotFound), Action::Done),
            },
            _ => (manager, Action::Ignored),
        },
        ConnectionState::Connecting => match event {
            Event::ConnectionStatus(connected) => if manager.attempts != 0 {
                (manager, Action::Ignored)
            } else if connected {
                (
                    manager.moved_to(ConnectionState::ResolvingCharacteristics),
                    Action::ReadServices { device: manager.device->0 },
                )
            } else {
                (
                    ManagerView { attempts: 1, ..manager },
                    Action::Connect { device: manager.device->0 },
                )
            },
            Event::Connected => if manager.attempts == 0 {
                (manager, Action::Ignored)
            } else {
                (
                    manager.moved_to(ConnectionState::ResolvingCharacteristics),
                    Action::ReadServices { device: manager.device->0 },
                )
            },
            Event::ConnectFailed(cause) => if manager.attempts == 0 {
                (manager, Action::Ignored)
            } else if manager.attempts < MAX_CONNECT_ATTEMPTS {
                (
                    ManagerView { attempts: (manager.attempts + 1) as u8, ..manager },
                    Action::Connect { device: manager.device->0 },
                )
            } else {
                (manager.failed(AncsError::ConnectFailed(cause)), Action::Done)
            },
            _ => (manager, Action::Ignored),
        },
        ConnectionState::ResolvingCharacteristics => match event {
            Event::Services(services) => match resolution(services@) {
                Ok(set) => (
                    ManagerView {
                        state: ConnectionState::Subscribing,
                        characteristics: Some(set),
                        ..manager
                    },
                    Action::Subscribe { characteristic: set.notification_source },
                ),
                Err(error) => (manager.failed(error), Action::Done),
            },
            _ => (manager, Action::Ignored),
        },
        ConnectionState::Subscribing => match event {
            Event::Subscribed => (
                manager.moved_to(ConnectionState::Active),
                Action::AwaitNotification,
            ),
            _ => (manager, Action::Ignored),
        },
        ConnectionState::Active => match event {
            Event::Notification(_) => (manager, Action::AwaitNotification),
            Event::StreamEnded => (
                ManagerView {
                    state: ConnectionState::Terminated,
                    error: Some(AncsError::StreamTerminated),
                    ..manager
                },
                Action::Done,
            ),
            Event::Cancelled => (
                manager.moved_to(ConnectionState::Terminated),
                Action::Teardown { grace_seconds: TEARDOWN_GRACE_SECONDS },
            ),
            _ => (manager, Action::Ignored),
        },
        ConnectionState::Terminated => (manager, Action::Done),
        ConnectionState::Failed => (manager, Action::Done),
    }
}

/// The manager after a whole sequence of events, taken in order.
pub open spec fn run(manager: ManagerView, events: Seq<Event>) -> ManagerView
    decreases events.len(),
{
    if events.len() == 0 {
        manager
    } else {
        next(run(manager, events.drop_last()), events.last()).0
    }
}

/// How many connection attempts the manager asks for while it takes a
/// sequence of events.
pub open spec fn connects_asked(manager: ManagerView, events: Seq<Event>) -> nat
    decreases events.len(),
{
    if events.len() == 0 {
        0
    } else {
        let asked = connects_asked(manager, events.drop_last());
        if next(run(manager, events.drop_last()), events.last()).1 is Connect {
            asked + 1
        } else {
            asked
        }
    }
}

/// A transition keeps a well-formed manager well-formed.
pub proof fn lemma_next_well_formed(manager: ManagerView, event: Event)
    requires
        manager.well_formed(),
    ensures
        next(manager, event).0.well_formed(),
{
}

/// The manager counts its connection attempts: a transition asks for one
/// exactly when it raises the count, and then by one.
pub proof fn lemma_connect_is_counted(manager: ManagerView, event: Event)
    requires
        manager.well_formed(),
    ensures
        next(manager, event).1 is Connect ==> manager.state == ConnectionState::Connecting
            && next(manager, event).0.attempts == manager.attempts + 1,
        !(next(manager, event).1 is Connect) ==> next(manager, event).0.attempts
            == manager.attempts,
{
}

/// Whatever the transport reports, and however often, no more than
/// `MAX_CONNECT_ATTEMPTS` connection attempts are ever asked for: the ones
/// asked for and the ones made before add up to the manager's count, which
/// never passes the limit.
pub proof fn lemma_connect_attempts_bounded(manager: ManagerView, events: Seq<Event>)
    requires
        manager.well_formed(),
    ensures
        run(manager, events).well_formed(),
        manager.attempts + connects_asked(manager, events) == run(manager, events).attempts,
        manager.attempts + connects_asked(manager, events) <= MAX_CONNECT_ATTEMPTS,
    decreases events.len(),
{
    if events.len() > 0 {
        lemma_connect_attempts_bounded(manager, events.drop_last());
        lemma_next_well_formed(run(manager, events.drop_last()), events.last());
        lemma_connect_is_counted(run(manager, events.drop_last()), events.last());
    }
}

/// A connection that has failed or ended stays as it is, whatever comes.
pub proof fn lemma_final_states_absorb(manager: ManagerView, events: Seq<Event>)
    requires
        manager.state == ConnectionState::Failed || manager.state == ConnectionState::Terminated,
    ensures
        run(manager, events) == manager,
        connects_asked(manager, events) == 0,
    decreases events.len(),
{
    if events.len() > 0 {
        lemma_final_states_absorb(manager, events.drop_last());
    }
}

/// A peer that is not connected is connected to in at most three attempts:
/// after two failures a success leads to resolution, and a third failure
/// fails the connection with its own cause, without another attempt.
pub proof fn lemma_retry_then_succeed_or_fail(
    manager: ManagerView,
    first: String,
    second: String,
    third: String,
)
    requires
        manager.well_formed(),
        manager.state == ConnectionState::Connecting,
        manager.attempts == 0,
    ensures
        ({
            let asked = next(manager, Event::ConnectionStatus(false));
            let once = next(asked.0, Event::ConnectFailed(first));
            let twice = next(once.0, Event::ConnectFailed(second));
            let success = next(twice.0, Event::Connected);
            let failure = next(twice.0, Event::ConnectFailed(third));
            &&& asked.1 == Action::Connect { device: manager.device->0 }
            &&& once.1 == asked.1
            &&& twice.1 == asked.1
            &&& success.0.state == ConnectionState::ResolvingCharacteristics
            &&& success.1 == Action::ReadServices { device: manager.device->0 }
            &&& failure.0.state == ConnectionState::Failed
            &&& failure.0.error == Some(AncsError::ConnectFailed(third))
            &&& failure.1 == Action::Done
            &&& forall|event: Event| #[trigger] next(failure.0, event) == (failure.0, Action::Done)
        }),
{
}

/// Drives one connection from discovery to the active notification stream.
/// It decides; the transport, outside this library, acts and reports back.
pub struct ConnectionManager {
    state: ConnectionState,
    device: Option<usize>,
    attempts: u8,
    characteristics: Option<CharacteristicSet>,
    error: Option<AncsError>,
}

impl View for ConnectionManager {
    type V = ManagerView;

    closed spec fn view(&self) -> ManagerView {
        ManagerView {
            state: self.state,
            device: self.device,
            attempts: self.attempts,
            characteristics: self.characteristics,
            error: self.error,
        }
    }
}

impl ConnectionManager {
    #[verifier::type_invariant]
    spec fn reachable(&self) -> bool {
        self@.well_formed()
    }

    /// A manager that has not been started.
    pub fn new() -> (manager: ConnectionManager)
        ensures
            manager@ == ManagerView::initial(),
    {
        ConnectionManager {
            state: ConnectionState::Idle,
            device: None,
            attempts: 0,
            characteristics: None,
            error: None,
        }
    }

    /// Where the connection stands.
    pub fn state(&self) -> (state: ConnectionState)
        ensures
            state == self@.state,
    {
        self.state
    }

    /// Index of the peer chosen, once one is.
    pub fn device(&self) -> (device: Option<usize>)
        ensures
            device == self@.device,
    {
        self.device
    }

    /// How many connection attempts have been asked for, at most
    /// `MAX_CONNECT_ATTEMPTS`.
    pub fn attempts(&self) -> (attempts: u8)
        ensures
            attempts == self@.attempts,
            attempts <= MAX_CONNECT_ATTEMPTS,
    {
        proof {
            use_type_invariant(self);
        }
        self.attempts
    }

    /// The resolved handles: `Some` from `Subscribing` on.
    pub fn characteristics(&self) -> (set: Option<CharacteristicSet>)
        ensures
            set == self@.characteristics,
            self@.state == ConnectionState::Subscribing || self@.state == ConnectionState::Active
                ==> set is Some,
    {
        proof {
            use_type_invariant(self);
        }
        self.characteristics
    }

    /// Why the connection failed or ended: `Some` once it has `Failed`, and
    /// `Some(StreamTerminated)` once the stream has ended.
    pub fn error(&self) -> (error: &Option<AncsError>)
        ensures
            *error == self@.error,
            self@.state == ConnectionState::Failed ==> error is Some,
    {
        proof {
            use_type_invariant(self);
        }
        &self.error
    }

    /// Takes one event from the transport and says what to do next: see
    /// [`next`].
    pub fn step(&mut self, event: Event) -> (action: Action)
        ensures
            (final(self)@, action) == next(old(self)@, event),
            final(self)@.well_formed(),
    {
        proof {
            use_type_invariant(&*self);
        }
        let state = self.state;
        let device = self.device;
        let attempts = self.attempts;
        let characteristics = self.characteristics;
        match state {
            ConnectionState::Idle => match event {
                Event::Start => {
                    self.state = ConnectionState::Discovering;
                    Action::ListDevices
                },
                _ => Action::Ignored,
            },
            ConnectionState::Discovering => match event {
                Event::Devices(devices) => match find_device(&devices) {
                    Some(chosen) => {
                        *self = ConnectionManager {
                            state: ConnectionState::Connecting,
                            device: Some(chosen),
                            attempts,
                            characteristics,
                            error: None,
                        };
                        Action::QueryConnection { device: chosen }
                    },
                    None => {
                        *self = ConnectionManager {
                            state: ConnectionState::Failed,
                            device,
                            attempts,
                            characteristics,
                            error: Some(AncsError::DeviceNotFound),
                        };
                        Action::Done
                    },
                },
                _ => Action::Ignored,
            },
            ConnectionState::Connecting => {
                let chosen = device.unwrap();
                match event {
                    Event::ConnectionStatus(connected) => if attempts != 0 {
                        Action::Ignored
                    } else if connected {
                        self.state = ConnectionState::ResolvingCharacteristics;
                        Action::ReadServices { device: chosen }
                    } else {
                        self.attempts = 1;
                        Action::Connect { device: chosen }
                    },
                    Event::Connected => if attempts == 0 {
                        Action::Ignored
                    } else {
                        self.state = ConnectionState::ResolvingCharacteristics;
                        Action::ReadServices { device: chosen }
                    },
                    Event::ConnectFailed(cause) => if attempts == 0 {
                        Action::Ignored
                    } else if attempts < MAX_CONNECT_ATTEMPTS {
                        self.attempts = attempts + 1;
                        Action::Connect { device: chosen }
                    } else {
                        *self = ConnectionManager {
                            state: ConnectionState::Failed,
                            device,
                            attempts,
                            characteristics,
                            error: Some(AncsError::ConnectFailed(cause)),
                        };
                        Action::Done
                    },
                    _ => Action::Ignored,
                }
            },
            ConnectionState::ResolvingCharacteristics => match event {
                Event::Services(services) => match find_characteristics(&services) {
                    Ok(set) => {
                        *self = ConnectionManager {
                            state: ConnectionState::Subscribing,
                            device,
                            attempts,
                            characteristics: Some(set),
                            error: None,
                        };
                        Action::Subscribe { characteristic: set.notification_source }
                    },
                    Err(error) => {
                        *self = ConnectionManager {
                            state: ConnectionState::Failed,
                            device,
                            attempts,
                            characteristics,
                            error: Some(error),
                        };
                        Action::Done
                    },
                },
                _ => Action::Ignored,
            },
            ConnectionState::Subscribing => match event {
                Event::Subscribed => {
                    self.state = ConnectionState::Active;
                    Action::AwaitNotification
                },
                _ => Action::Ignored,
            },
            ConnectionState::Active => match event {
                Event::Notification(_) => Action::AwaitNotification,
                Event::StreamEnded => {
                    *self = ConnectionManager {
                        state: ConnectionState::Terminated,
                        device,
                        attempts,
                        characteristics,
                        error: Some(AncsError::StreamTerminated),
                    };
                    Action::Done
                },
                Event::Cancelled => {
                    self.state = ConnectionState::Terminated;
                    Action::Teardown { grace_seconds: TEARDOWN_GRACE_SECONDS }
                },
                _ => Action::Ignored,
            },
            ConnectionState::Terminated => Action::Done,
            ConnectionState::Failed => Action::Done,
        }
    }
}

} // verus!
