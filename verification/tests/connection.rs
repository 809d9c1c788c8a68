use ancs::connection::{
    advertises_ancs, find_device, Action, ConnectionManager, ConnectionState, Event,
    MAX_CONNECT_ATTEMPTS, TEARDOWN_GRACE_SECONDS,
};
use ancs::error::{AncsError, RequiredCharacteristic};
use ancs::resolver::{CharacteristicSet, GattCharacteristic, GattDescriptor, GattService};
use ancs::uuids::{
    ANCS_CONTROL_POINT_UUID, ANCS_DATA_SOURCE_UUID, ANCS_NOTIFICATION_SOURCE_UUID, ANCS_UUID,
    GATT_CCC_UUID,
};

const BATTERY_UUID: u128 = 0x0000180f_0000_1000_8000_00805f9b34fb;

fn full_tree() -> Vec<GattService> {
    vec![GattService {
        uuid: ANCS_UUID,
        characteristics: vec![
            GattCharacteristic {
                uuid: ANCS_NOTIFICATION_SOURCE_UUID,
                handle: 0x10,
                descriptors: vec![GattDescriptor { uuid: GATT_CCC_UUID, handle: 0x11 }],
            },
            GattCharacteristic {
                uuid: ANCS_CONTROL_POINT_UUID,
                handle: 0x20,
                descriptors: vec![],
            },
            GattCharacteristic {
                uuid: ANCS_DATA_SOURCE_UUID,
                handle: 0x30,
                descriptors: vec![GattDescriptor { uuid: GATT_CCC_UUID, handle: 0x31 }],
            },
        ],
    }]
}

/// A transport whose connection attempts fail a given number of times.
struct StubTransport {
    failures_left: u32,
    connects: u32,
    connected_already: bool,
}

impl StubTransport {
    /// Performs `action` and reports back, or `None` where the startup is over.
    fn perform(&mut self, action: Action) -> Option<Event> {
        match action {
            Action::ListDevices => {
                Some(Event::Devices(vec![vec![BATTERY_UUID], vec![BATTERY_UUID, ANCS_UUID]]))
            }
            Action::QueryConnection { device } => {
                assert_eq!(device, 1);
                Some(Event::ConnectionStatus(self.connected_already))
            }
            Action::Connect { device } => {
                assert_eq!(device, 1);
                self.connects += 1;
                if self.failures_left > 0 {
                    self.failures_left -= 1;
                    Some(Event::ConnectFailed(format!("attempt {} failed", self.connects)))
                } else {
                    Some(Event::Connected)
                }
            }
            _ => None,
        }
    }
}

/// Starts a manager on `transport` and runs it until the transport has
/// nothing more to report; returns the last action.
fn start(manager: &mut ConnectionManager, transport: &mut StubTransport) -> Action {
    let mut action = manager.step(Event::Start);
    while let Some(event) = transport.perform(action) {
        action = manager.step(event);
    }
    action
}

fn active_manager() -> ConnectionManager {
    let mut manager = ConnectionManager::new();
    let mut transport = StubTransport { failures_left: 0, connects: 0, connected_already: true };
    assert_eq!(start(&mut manager, &mut transport), Action::ReadServices { device: 1 });
    assert_eq!(
        manager.step(Event::Services(full_tree())),
        Action::Subscribe { characteristic: 0x10 }
    );
    assert_eq!(manager.step(Event::Subscribed), Action::AwaitNotification);
    manager
}

#[test]
fn limits() {
    assert_eq!(MAX_CONNECT_ATTEMPTS, 3);
    assert_eq!(TEARDOWN_GRACE_SECONDS, 3);
}

#[test]
fn new_manager_is_idle() {
    let manager = ConnectionManager::new();
    assert_eq!(manager.state(), ConnectionState::Idle);
    assert_eq!(manager.device(), None);
    assert_eq!(manager.attempts(), 0);
    assert_eq!(manager.characteristics(), None);
    assert_eq!(manager.error(), &None);
}

#[test]
fn first_device_that_offers_ancs_is_chosen() {
    assert_eq!(find_device(&vec![]), None);
    assert_eq!(find_device(&vec![vec![]]), None);
    assert_eq!(find_device(&vec![vec![BATTERY_UUID], vec![]]), None);
    assert_eq!(find_device(&vec![vec![ANCS_UUID]]), Some(0));
    assert_eq!(
        find_device(&vec![vec![BATTERY_UUID], vec![BATTERY_UUID, ANCS_UUID], vec![ANCS_UUID]]),
        Some(1)
    );
    assert_eq!(find_device(&vec![vec![], vec![], vec![BATTERY_UUID, BATTERY_UUID, ANCS_UUID]]), Some(2));
    assert!(advertises_ancs(&vec![BATTERY_UUID, ANCS_UUID]));
    assert!(!advertises_ancs(&vec![BATTERY_UUID, ANCS_NOTIFICATION_SOURCE_UUID]));
    assert!(!advertises_ancs(&vec![]));
}

#[test]
fn start_leads_to_discovery() {
    let mut manager = ConnectionManager::new();
    assert_eq!(manager.step(Event::Start), Action::ListDevices);
    assert_eq!(manager.state(), ConnectionState::Discovering);
}

#[test]
fn no_device_fails_without_retry() {
    let mut manager = ConnectionManager::new();
    manager.step(Event::Start);
    let action = manager.step(Event::Devices(vec![vec![BATTERY_UUID], vec![]]));
    assert_eq!(action, Action::Done);
    assert_eq!(manager.state(), ConnectionState::Failed);
    assert_eq!(manager.error(), &Some(AncsError::DeviceNotFound));
    assert_eq!(manager.step(Event::Devices(vec![vec![ANCS_UUID]])), Action::Done);
    assert_eq!(manager.state(), ConnectionState::Failed);
    assert_eq!(manager.step(Event::Start), Action::Done);
    assert_eq!(manager.state(), ConnectionState::Failed);
}

#[test]
fn connected_peer_skips_to_resolution() {
    let mut manager = ConnectionManager::new();
    let mut transport = StubTransport { failures_left: 5, connects: 0, connected_already: true };
    let action = start(&mut manager, &mut transport);
    assert_eq!(action, Action::ReadServices { device: 1 });
    assert_eq!(manager.state(), ConnectionState::ResolvingCharacteristics);
    assert_eq!(transport.connects, 0);
    assert_eq!(manager.attempts(), 0);
    assert_eq!(manager.device(), Some(1));
}

#[test]
fn first_attempt_succeeds() {
    let mut manager = ConnectionManager::new();
    let mut transport = StubTransport { failures_left: 0, connects: 0, connected_already: false };
    let action = start(&mut manager, &mut transport);
    assert_eq!(action, Action::ReadServices { device: 1 });
    assert_eq!(manager.state(), ConnectionState::ResolvingCharacteristics);
    assert_eq!(transport.connects, 1);
    assert_eq!(manager.attempts(), 1);
}

#[test]
fn third_attempt_succeeds_after_two_failures() {
    let mut manager = ConnectionManager::new();
    let mut transport = StubTransport { failures_left: 2, connects: 0, connected_already: false };
    let action = start(&mut manager, &mut transport);
    assert_eq!(action, Action::ReadServices { device: 1 });
    assert_eq!(manager.state(), ConnectionState::ResolvingCharacteristics);
    assert_eq!(transport.connects, 3);
    assert_eq!(manager.attempts(), 3);
    assert_eq!(manager.error(), &None);
}

#[test]
fn three_failures_fail_without_a_fourth_attempt() {
    let mut manager = ConnectionManager::new();
    let mut transport = StubTransport { failures_left: 3, connects: 0, connected_already: false };
    let action = start(&mut manager, &mut transport);
    assert_eq!(action, Action::Done);
    assert_eq!(manager.state(), ConnectionState::Failed);
    assert_eq!(transport.connects, 3);
    assert_eq!(transport.failures_left, 0);
    assert_eq!(
        manager.error(),
        &Some(AncsError::ConnectFailed(String::from("attempt 3 failed")))
    );
    assert_eq!(manager.step(Event::ConnectFailed(String::from("late"))), Action::Done);
    assert_eq!(manager.step(Event::Connected), Action::Done);
    assert_eq!(manager.state(), ConnectionState::Failed);
    assert_eq!(
        manager.error(),
        &Some(AncsError::ConnectFailed(String::from("attempt 3 failed")))
    );
}

#[test]
fn a_transport_that_always_fails_is_asked_three_times() {
    let mut manager = ConnectionManager::new();
    let mut transport =
        StubTransport { failures_left: u32::MAX, connects: 0, connected_already: false };
    start(&mut manager, &mut transport);
    assert_eq!(transport.connects, 3);
    assert_eq!(manager.attempts(), MAX_CONNECT_ATTEMPTS);
}

#[test]
fn each_retry_is_asked_for_at_once() {
    let mut manager = ConnectionManager::new();
    manager.step(Event::Start);
    assert_eq!(
        manager.step(Event::Devices(vec![vec![ANCS_UUID]])),
        Action::QueryConnection { device: 0 }
    );
    assert_eq!(manager.state(), ConnectionState::Connecting);
    assert_eq!(manager.step(Event::ConnectionStatus(false)), Action::Connect { device: 0 });
    assert_eq!(
        manager.step(Event::ConnectFailed(String::from("a"))),
        Action::Connect { device: 0 }
    );
    assert_eq!(
        manager.step(Event::ConnectFailed(String::from("b"))),
        Action::Connect { device: 0 }
    );
    assert_eq!(manager.state(), ConnectionState::Connecting);
    assert_eq!(manager.step(Event::ConnectFailed(String::from("c"))), Action::Done);
    assert_eq!(manager.error(), &Some(AncsError::ConnectFailed(String::from("c"))));
}

#[test]
fn resolution_leads_to_subscription_and_activity() {
    let mut manager = ConnectionManager::new();
    let mut transport = StubTransport { failures_left: 1, connects: 0, connected_already: false };
    start(&mut manager, &mut transport);
    let action = manager.step(Event::Services(full_tree()));
    assert_eq!(action, Action::Subscribe { characteristic: 0x10 });
    assert_eq!(manager.state(), ConnectionState::Subscribing);
    assert_eq!(
        manager.characteristics(),
        Some(CharacteristicSet {
            notification_source: 0x10,
            notification_source_ccc: 0x11,
            control_point: 0x20,
            data_source: 0x30,
            data_source_ccc: 0x31,
        })
    );
    assert_eq!(manager.step(Event::Subscribed), Action::AwaitNotification);
    assert_eq!(manager.state(), ConnectionState::Active);
}

#[test]
fn missing_characteristic_fails_the_connection() {
    let mut manager = ConnectionManager::new();
    let mut transport = StubTransport { failures_left: 0, connects: 0, connected_already: true };
    start(&mut manager, &mut transport);
    let mut tree = full_tree();
    tree[0].characteristics[2].descriptors.clear();
    assert_eq!(manager.step(Event::Services(tree)), Action::Done);
    assert_eq!(manager.state(), ConnectionState::Failed);
    assert_eq!(
        manager.error(),
        &Some(AncsError::MissingCharacteristic(RequiredCharacteristic::DataSourceCCC))
    );
    assert_eq!(manager.characteristics(), None);
}

#[test]
fn active_connection_waits_for_each_buffer() {
    let mut manager = active_manager();
    for _ in 0..5 {
        let action = manager.step(Event::Notification(vec![0, 0, 0, 0, 1, 0, 0, 0]));
        assert_eq!(action, Action::AwaitNotification);
        assert_eq!(manager.state(), ConnectionState::Active);
    }
    assert_eq!(manager.step(Event::Notification(vec![])), Action::AwaitNotification);
    assert_eq!(manager.state(), ConnectionState::Active);
}

#[test]
fn end_of_stream_terminates() {
    let mut manager = active_manager();
    assert_eq!(manager.step(Event::StreamEnded), Action::Done);
    assert_eq!(manager.state(), ConnectionState::Terminated);
    assert_eq!(manager.error(), &Some(AncsError::StreamTerminated));
    assert_eq!(manager.step(Event::Start), Action::Done);
    assert_eq!(manager.step(Event::Notification(vec![0; 8])), Action::Done);
    assert_eq!(manager.state(), ConnectionState::Terminated);
}

#[test]
fn cancellation_tears_down_with_a_grace_period() {
    let mut manager = active_manager();
    assert_eq!(manager.step(Event::Cancelled), Action::Teardown { grace_seconds: 3 });
    assert_eq!(manager.state(), ConnectionState::Terminated);
    assert_eq!(manager.error(), &None);
    assert_eq!(manager.step(Event::Cancelled), Action::Done);
}

#[test]
fn unexpected_events_change_nothing() {
    let mut manager = ConnectionManager::new();
    assert_eq!(manager.step(Event::Connected), Action::Ignored);
    assert_eq!(manager.step(Event::Cancelled), Action::Ignored);
    assert_eq!(manager.step(Event::Devices(vec![vec![ANCS_UUID]])), Action::Ignored);
    assert_eq!(manager.state(), ConnectionState::Idle);
    manager.step(Event::Start);
    assert_eq!(manager.step(Event::Start), Action::Ignored);
    assert_eq!(manager.step(Event::ConnectFailed(String::from("x"))), Action::Ignored);
    assert_eq!(manager.state(), ConnectionState::Discovering);
    manager.step(Event::Devices(vec![vec![ANCS_UUID]]));
    assert_eq!(manager.step(Event::Connected), Action::Ignored);
    assert_eq!(manager.step(Event::ConnectFailed(String::from("x"))), Action::Ignored);
    assert_eq!(manager.step(Event::Services(full_tree())), Action::Ignored);
    assert_eq!(manager.state(), ConnectionState::Connecting);
    assert_eq!(manager.attempts(), 0);
    manager.step(Event::ConnectionStatus(false));
    assert_eq!(manager.step(Event::ConnectionStatus(true)), Action::Ignored);
    assert_eq!(manager.state(), ConnectionState::Connecting);
    assert_eq!(manager.attempts(), 1);
    manager.step(Event::Connected);
    assert_eq!(manager.step(Event::Subscribed), Action::Ignored);
    assert_eq!(manager.step(Event::StreamEnded), Action::Ignored);
    assert_eq!(manager.state(), ConnectionState::ResolvingCharacteristics);
    manager.step(Event::Services(full_tree()));
    assert_eq!(manager.step(Event::Notification(vec![0; 8])), Action::Ignored);
    assert_eq!(manager.step(Event::Cancelled), Action::Ignored);
    assert_eq!(manager.state(), ConnectionState::Subscribing);
    manager.step(Event::Subscribed);
    assert_eq!(manager.step(Event::Subscribed), Action::Ignored);
    assert_eq!(manager.step(Event::Start), Action::Ignored);
    assert_eq!(manager.state(), ConnectionState::Active);
}
