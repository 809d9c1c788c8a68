use vstd::prelude::*;

use crate::error::{AncsError, RequiredCharacteristic};
use crate::uuids::{
    ANCS_CONTROL_POINT_UUID, ANCS_DATA_SOURCE_UUID, ANCS_NOTIFICATION_SOURCE_UUID, ANCS_UUID,
    GATT_CCC_UUID,
};

verus! {

/// A descriptor as discovered on the peer: its UUID and its attribute handle.
#[derive(Debug, Clone, PartialEq, Eq)]
pub struct GattDescriptor {
    pub uuid: u128,
    pub handle: u16,
}

/// A characteristic as discovered on the peer, with its child descriptors in
/// discovery order.
#[derive(Debug, Clone, PartialEq, Eq)]
pub struct GattCharacteristic {
    pub uuid: u128,
    pub handle: u16,
    pub descriptors: Vec<GattDescriptor>,
}

/// A primary service as discovered on the peer, with its characteristics in
/// discovery order.
#[derive(Debug, Clone, PartialEq, Eq)]
pub struct GattService {
    pub uuid: u128,
    pub characteristics: Vec<GattCharacteristic>,
}

/// The handles an ANCS session works with. A value of this type only exists
/// once all five have been found.
#[derive(Debug, Clone, Copy, PartialEq, Eq, Structural)]
pub struct CharacteristicSet {
    pub notification_source: u16,
    pub notification_source_ccc: u16,
    pub control_point: u16,
    pub data_source: u16,
    pub data_source_ccc: u16,
}

/// What a scan has found so far: one optional handle per required attribute.
pub struct Findings {
    pub notification_source: Option<u16>,
    pub notification_source_ccc: Option<u16>,
    pub control_point: Option<u16>,
    pub data_source: Option<u16>,
    pub data_source_ccc: Option<u16>,
}

/// The characteristics of every service in `services` whose UUID is
/// `service_uuid`, concatenated in discovery order. Other services
/// contribute nothing.
pub open spec fn service_characteristics(
    services: Seq<GattService>,
    service_uuid: u128,
) -> Seq<GattCharacteristic>
    decreases services.len(),
{
    if services.len() == 0 {
        Seq::empty()
    } else if services.last().uuid == service_uuid {
        service_characteristics(services.drop_last(), service_uuid)
            + services.last().characteristics@
    } else {
        service_characteristics(services.drop_last(), service_uuid)
    }
}

/// The descriptors of every characteristic in `characteristics` whose UUID is
/// `uuid`, concatenated in discovery order.
pub open spec fn characteristic_descriptors(
    characteristics: Seq<GattCharacteristic>,
    uuid: u128,
) -> Seq<GattDescriptor>
    decreases characteristics.len(),
{
    if characteristics.len() == 0 {
        Seq::empty()
    } else if characteristics.last().uuid == uuid {
        characteristic_descriptors(characteristics.drop_last(), uuid)
            + characteristics.last().descriptors@
    } else {
        characteristic_descriptors(characteristics.drop_last(), uuid)
    }
}

/// Handle of the last characteristic in `characteristics` with UUID `uuid`.
pub open spec fn last_characteristic(
    characteristics: Seq<GattCharacteristic>,
    uuid: u128,
) -> Option<u16>
    decreases characteristics.len(),
{
    if characteristics.len() == 0 {
        None
    } else if characteristics.last().uuid == uuid {
        Some(characteristics.last().handle)
    } else {
        last_characteristic(characteristics.drop_last(), uuid)
    }
}

/// Handle of the last descriptor in `descriptors` with UUID `uuid`.
pub open spec fn last_descriptor(descriptors: Seq<GattDescriptor>, uuid: u128) -> Option<u16>
    decreases descriptors.len(),
{
    if descriptors.len() == 0 {
        None
    } else if descriptors.last().uuid == uuid {
        Some(descriptors.last().handle)
    } else {
        last_descriptor(descriptors.drop_last(), uuid)
    }
}

/// `later` if it holds a handle, else `earlier`: a later discovery replaces
/// an earlier one.
pub open spec fn replaced_by(earlier: Option<u16>, later: Option<u16>) -> Option<u16> {
    if later is Some {
        later
    } else {
        earlier
    }
}

/// What a scan of `characteristics` finds. Where a UUID occurs more than
/// once, the last occurrence is kept; the configuration descriptor of a
/// characteristic is looked for among the children of every characteristic
/// with that UUID.
pub open spec fn findings_in(characteristics: Seq<GattCharacteristic>) -> Findings {
    Findings {
        notification_source: last_characteristic(characteristics, ANCS_NOTIFICATION_SOURCE_UUID),
        notification_source_ccc: last_descriptor(
            characteristic_descriptors(characteristics, ANCS_NOTIFICATION_SOURCE_UUID),
            GATT_CCC_UUID,
        ),
        control_point: last_characteristic(characteristics, ANCS_CONTROL_POINT_UUID),
        data_source: last_characteristic(characteristics, ANCS_DATA_SOURCE_UUID),
        data_source_ccc: last_descriptor(
            characteristic_descriptors(characteristics, ANCS_DATA_SOURCE_UUID),
            GATT_CCC_UUID,
        ),
    }
}

impl Findings {
    /// The handle found for `which`, if any.
    pub open spec fn handle_of(self, which: RequiredCharacteristic) -> Option<u16> {
        match which {
            RequiredCharacteristic::NotificationSource => self.notification_source,
            RequiredCharacteristic::NotificationSourceCCC => self.notification_source_ccc,
            RequiredCharacteristic::ControlPoint => self.control_point,
            RequiredCharacteristic::DataSource => self.data_source,
            RequiredCharacteristic::DataSourceCCC => self.data_source_ccc,
        }
    }
}

/// The first required attribute, in the fixed order, that `found` lacks.
pub open spec fn first_missing(found: Findings) -> Option<RequiredCharacteristic> {
    if found.notification_source is None {
        Some(RequiredCharacteristic::NotificationSource)
    } else if found.notification_source_ccc is None {
        Some(RequiredCharacteristic::NotificationSourceCCC)
    } else if found.control_point is None {
        Some(RequiredCharacteristic::ControlPoint)
    } else if found.data_source is None {
        Some(RequiredCharacteristic::DataSource)
    } else if found.data_source_ccc is None {
        Some(RequiredCharacteristic::DataSourceCCC)
    } else {
        None
    }
}

/// The outcome of resolving a discovered service tree: the full set of
/// handles, or the first required attribute that is missing.
pub open spec fn resolution(services: Seq<GattService>) -> Result<CharacteristicSet, AncsError> {
    let found = findings_in(service_characteristics(services, ANCS_UUID));
    match first_missing(found) {
        Some(which) => Err(AncsError::MissingCharacteristic(which)),
        None => Ok(
            CharacteristicSet {
                notification_source: found.notification_source->0,
                notification_source_ccc: found.notification_source_ccc->0,
                control_point: found.control_point->0,
                data_source: found.data_source->0,
                data_source_ccc: found.data_source_ccc->0,
            },
        ),
    }
}

/// Resolution succeeds exactly when all five attributes were found, and then
/// hands out the handles found. When it fails, it names an attribute that
/// was not found, and every attribute that is checked before that one was
/// found.
pub proof fn lemma_first_missing_is_reported(services: Seq<GattService>)
    ensures
        ({
            let found = findings_in(service_characteristics(services, ANCS_UUID));
            match resolution(services) {
                Ok(set) => {
                    &&& forall|which: RequiredCharacteristic| found.handle_of(which) is Some
                    &&& found.notification_source == Some(set.notification_source)
                    &&& found.notification_source_ccc == Some(set.notification_source_ccc)
                    &&& found.control_point == Some(set.control_point)
                    &&& found.data_source == Some(set.data_source)
                    &&& found.data_source_ccc == Some(set.data_source_ccc)
                },
                Err(error) => {
                    &&& error matches AncsError::MissingCharacteristic(which)
                    &&& found.handle_of(which) is None
                    &&& forall|earlier: RequiredCharacteristic|
                        earlier.rank() < which.rank() ==> found.handle_of(earlier) is Some
                },
            }
        }),
{
}

/// Where the ANCS service has everything but a configuration descriptor
/// under its Data Source, that descriptor is the one reported missing.
pub proof fn lemma_data_source_without_ccc(services: Seq<GattService>)
    requires
        ({
            let found = findings_in(service_characteristics(services, ANCS_UUID));
            &&& found.notification_source is Some
            &&& found.notification_source_ccc is Some
            &&& found.control_point is Some
            &&& found.data_source is Some
        }),
        ({
            let children = characteristic_descriptors(
                service_characteristics(services, ANCS_UUID),
                ANCS_DATA_SOURCE_UUID,
            );
            forall|i: int| 0 <= i < children.len() ==> #[trigger] children[i].uuid != GATT_CCC_UUID
        }),
    ensures
        resolution(services) == Err::<CharacteristicSet, AncsError>(
            AncsError::MissingCharacteristic(RequiredCharacteristic::DataSourceCCC),
        ),
{
    let children = characteristic_descriptors(
        service_characteristics(services, ANCS_UUID),
        ANCS_DATA_SOURCE_UUID,
    );
    lemma_last_descriptor_is_last(children, GATT_CCC_UUID);
}

/// The last match in a concatenation is the last match in the second part
/// if there is one, else the last match in the first part.
pub proof fn lemma_last_descriptor_concat(
    first: Seq<GattDescriptor>,
    second: Seq<GattDescriptor>,
    uuid: u128,
)
    ensures
        last_descriptor(first + second, uuid) == replaced_by(
            last_descriptor(first, uuid),
            last_descriptor(second, uuid),
        ),
    decreases second.len(),
{
    if second.len() > 0 {
        assert((first + second).drop_last() =~= first + second.drop_last());
        lemma_last_descriptor_concat(first, second.drop_last(), uuid);
    }
}

/// `last_descriptor` returns the handle of a descriptor with the wanted
/// UUID after which no other descriptor has that UUID, and `None` exactly
/// when no descriptor has it.
pub proof fn lemma_last_descriptor_is_last(descriptors: Seq<GattDescriptor>, uuid: u128)
    ensures
        match last_descriptor(descriptors, uuid) {
            Some(handle) => exists|i: int|
                0 <= i < descriptors.len() && #[trigger] descriptors[i].uuid == uuid
                    && descriptors[i].handle == handle && forall|j: int|
                    i < j < descriptors.len() ==> #[trigger] descriptors[j].uuid != uuid,
            None => forall|i: int|
                0 <= i < descriptors.len() ==> #[trigger] descriptors[i].uuid != uuid,
        },
    decreases descriptors.len(),
{
    if descriptors.len() > 0 && descriptors.last().uuid != uuid {
        let shorter = descriptors.drop_last();
        lemma_last_descriptor_is_last(shorter, uuid);
        match last_descriptor(shorter, uuid) {
            Some(handle) => {
                let i = choose|i: int|
                    0 <= i < shorter.len() && #[trigger] shorter[i].uuid == uuid
                        && shorter[i].handle == handle && forall|j: int|
                        i < j < shorter.len() ==> #[trigger] shorter[j].uuid != uuid;
                assert forall|j: int| i < j < descriptors.len() implies #[trigger] descriptors[j].uuid
                    != uuid by {
                    if j < shorter.len() {
                        assert(descriptors[j] == shorter[j]);
                    }
                }
            },
            None => {
                assert forall|i: int| 0 <= i < descriptors.len() implies #[trigger] descriptors[i].uuid
                    != uuid by {
                    if i < shorter.len() {
                        assert(descriptors[i] == shorter[i]);
                    }
                }
            },
        }
    }
}

/// `last_characteristic` returns the handle of a characteristic with the
/// wanted UUID after which no other characteristic has that UUID, and `None`
/// exactly when no characteristic has it.
pub proof fn lemma_last_characteristic_is_last(
    characteristics: Seq<GattCharacteristic>,
    uuid: u128,
)
    ensures
        match last_characteristic(characteristics, uuid) {
            Some(handle) => exists|i: int|
                0 <= i < characteristics.len() && #[trigger] characteristics[i].uuid == uuid
                    && characteristics[i].handle == handle && forall|j: int|
                    i < j < characteristics.len() ==> #[trigger] characteristics[j].uuid != uuid,
            None => forall|i: int|
                0 <= i < characteristics.len() ==> #[trigger] characteristics[i].uuid != uuid,
        },
    decreases characteristics.len(),
{
    if characteristics.len() > 0 && characteristics.last().uuid != uuid {
        let shorter = characteristics.drop_last();
        lemma_last_characteristic_is_last(shorter, uuid);
        match last_characteristic(shorter, uuid) {
            Some(handle) => {
                let i = choose|i: int|
                    0 <= i < shorter.len() && #[trigger] shorter[i].uuid == uuid
                        && shorter[i].handle == handle && forall|j: int|
                        i < j < shorter.len() ==> #[trigger] shorter[j].uuid != uuid;
                assert forall|j: int|
                    i < j < characteristics.len() implies #[trigger] characteristics[j].uuid
                    != uuid by {
                    if j < shorter.len() {
                        assert(characteristics[j] == shorter[j]);
                    }
                }
            },
            None => {
                assert forall|i: int|
                    0 <= i < characteristics.len() implies #[trigger] characteristics[i].uuid
                    != uuid by {
                    if i < shorter.len() {
                        assert(characteristics[i] == shorter[i]);
                    }
                }
            },
        }
    }
}

/// Scanning one more characteristic: how the findings over `seen` change
/// when `next` is appended.
proof fn lemma_findings_push(seen: Seq<GattCharacteristic>, next: GattCharacteristic)
    ensures
        findings_in(seen.push(next)) == (Findings {
            notification_source: if next.uuid == ANCS_NOTIFICATION_SOURCE_UUID {
                Some(next.handle)
            } else {
                findings_in(seen).notification_source
            },
            notification_source_ccc: if next.uuid == ANCS_NOTIFICATION_SOURCE_UUID {
                replaced_by(
                    findings_in(seen).notification_source_ccc,
                    last_descriptor(next.descriptors@, GATT_CCC_UUID),
                )
            } else {
                findings_in(seen).notification_source_ccc
            },
            control_point: if next.uuid == ANCS_CONTROL_POINT_UUID {
                Some(next.handle)
            } else {
                findings_in(seen).control_point
            },
            data_source: if next.uuid == ANCS_DATA_SOURCE_UUID {
                Some(next.handle)
            } else {
                findings_in(seen).data_source
            },
            data_source_ccc: if next.uuid == ANCS_DATA_SOURCE_UUID {
                replaced_by(
                    findings_in(seen).data_source_ccc,
                    last_descriptor(next.descriptors@, GATT_CCC_UUID),
                )
            } else {
                findings_in(seen).data_source_ccc
            },
        }),
{
    assert(seen.push(next).drop_last() =~= seen);
    lemma_last_descriptor_concat(
        characteristic_descriptors(seen, ANCS_NOTIFICATION_SOURCE_UUID),
        next.descriptors@,
        GATT_CCC_UUID,
    );
    lemma_last_descriptor_concat(
        characteristic_descriptors(seen, ANCS_DATA_SOURCE_UUID),
        next.descriptors@,
        GATT_CCC_UUID,
    );
}

/// Handle of the last configuration descriptor among `descriptors`.
fn last_ccc_descriptor(descriptors: &Vec<GattDescriptor>) -> (found: Option<u16>)
    ensures
        found == last_descriptor(descriptors@, GATT_CCC_UUID),
{
    let mut found: Option<u16> = None;
    let mut k: usize = 0;
    while k < descriptors.len()
        invariant
            k <= descriptors.len(),
            found == last_descriptor(descriptors@.take(k as int), GATT_CCC_UUID),
        decreases descriptors.len() - k,
    {
        if descriptors[k].uuid == GATT_CCC_UUID {
            found = Some(descriptors[k].handle);
        }
        proof {
            assert(descriptors@.take(k + 1).drop_last() =~= descriptors@.take(k as int));
        }
        k += 1;
    }
    proof {
        assert(descriptors@.take(k as int) =~= descriptors@);
    }
    found
}

/// Scans the characteristics of one ANCS service, going on from what was
/// found in the characteristics `seen` before it.
fn scan_characteristics(
    characteristics: &Vec<GattCharacteristic>,
    before: Findings,
    Ghost(seen): Ghost<Seq<GattCharacteristic>>,
) -> (after: Findings)
    requires
        before == findings_in(seen),
    ensures
        after == findings_in(seen + characteristics@),
{
    let mut found = before;
    let mut j: usize = 0;
    while j < characteristics.len()
        invariant
            j <= characteristics.len(),
            found == findings_in(seen + characteristics@.take(j as int)),
        decreases characteristics.len() - j,
    {
        let characteristic = &characteristics[j];
        proof {
            lemma_findings_push(seen + characteristics@.take(j as int), *characteristic);
            assert(seen + characteristics@.take(j + 1) =~= (seen + characteristics@.take(
                j as int,
            )).push(*characteristic));
        }
        if characteristic.uuid == ANCS_NOTIFICATION_SOURCE_UUID {
            if let Some(handle) = last_ccc_descriptor(&characteristic.descriptors) {
                found.notification_source_ccc = Some(handle);
            }
            found.notification_source = Some(characteristic.handle);
        } else if characteristic.uuid == ANCS_CONTROL_POINT_UUID {
            found.control_point = Some(characteristic.handle);
        } else if characteristic.uuid == ANCS_DATA_SOURCE_UUID {
            if let Some(handle) = last_ccc_descriptor(&characteristic.descriptors) {
                found.data_source_ccc = Some(handle);
            }
            found.data_source = Some(characteristic.handle);
        }
        j += 1;
    }
    proof {
        assert(characteristics@.take(j as int) =~= characteristics@);
    }
    found
}

/// Maps a discovered service tree to the five handles an ANCS session needs.
///
/// Only services with the ANCS UUID are looked at. The result is the full
/// set, or `MissingCharacteristic` naming the first attribute, in the order
/// Notification Source, its configuration descriptor, Control Point, Data
/// Source, its configuration descriptor, that was not found.
pub fn find_characteristics(services: &Vec<GattService>) -> (result: Result<
    CharacteristicSet,
    AncsError,
>)
    ensures
        result == resolution(services@),
{
    let mut found = Findings {
        notification_source: None,
        notification_source_ccc: None,
        control_point: None,
        data_source: None,
        data_source_ccc: None,
    };
    let mut i: usize = 0;
    while i < services.len()
        invariant
            i <= services.len(),
            found == findings_in(service_characteristics(services@.take(i as int), ANCS_UUID)),
        decreases services.len() - i,
    {
        let service = &services[i];
        proof {
            assert(services@.take(i + 1).drop_last() =~= services@.take(i as int));
        }
        if service.uuid == ANCS_UUID {
            found = scan_characteristics(
                &service.characteristics,
                found,
                Ghost(service_characteristics(services@.take(i as int), ANCS_UUID)),
            );
        }
        i += 1;
    }
    proof {
        assert(services@.take(i as int) =~= services@);
    }
    match found.notification_source {
        None => Err(AncsError::MissingCharacteristic(RequiredCharacteristic::NotificationSource)),
        Some(notification_source) => match found.notification_source_ccc {
            None => Err(
                AncsError::MissingCharacteristic(RequiredCharacteristic::NotificationSourceCCC),
            ),
            Some(notification_source_ccc) => match found.control_point {
                None => Err(AncsError::MissingCharacteristic(RequiredCharacteristic::ControlPoint)),
                Some(control_point) => match found.data_source {
                    None => Err(
                        AncsError::MissingCharacteristic(RequiredCharacteristic::DataSource),
                    ),
                    Some(data_source) => match found.data_source_ccc {
                        None => Err(
                            AncsError::MissingCharacteristic(
                                RequiredCharacteristic::DataSourceCCC,
                            ),
                        ),
                        Some(data_source_ccc) => Ok(
                            CharacteristicSet {
                                notification_source,
                                notification_source_ccc,
                                control_point,
                                data_source,
                                data_source_ccc,
                            },
                        ),
                    },
                },
            },
        },
    }
}

} // verus!
