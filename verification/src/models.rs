//! Devices, services and characteristics as plain data.
use vstd::prelude::*;
use vstd::std_specs::cmp::{PartialEqSpec, PartialOrdSpec};

use core::cmp::Ordering;
use std::collections::HashMap;

use crate::error::{Error, ErrorView, fails_with};
use crate::ids::Uuid;
use crate::platform::Platform;
use crate::text::{
    compare_texts, law_text_order_is_transitive, law_texts_are_totally_ordered, text_order,
};

pub use crate::filter::ScanFilter;

verus! {

broadcast use vstd::std_specs::hash::group_hash_axioms;

/// Manufacturer specific data of an advertisement.
#[derive(Debug)]
pub struct ManufacturerData {
    pub company_id: u16,
    pub data: Vec<u8>,
}

/// What a device advertises.
#[derive(Debug)]
pub struct AdvertisementData {
    pub local_name: Option<String>,
    pub manufacturer_data: Option<ManufacturerData>,
    pub services: Vec<Uuid>,
    pub service_data: HashMap<Uuid, Vec<u8>>,
    pub tx_power_level: Option<i16>,
}

/// A device seen in a scan.
pub struct DiscoveredDevice<P: Platform> {
    /// The text of the device's identifier. It serves as the device's address.
    pub id: String,
    pub device: P::Device,
    pub adv_data: AdvertisementData,
    /// The signal strength of the advertisement.
    pub rssi: Option<i16>,
}

/// A device as it is shown to the user. Two of them are equal if their addresses are, and they are
/// ordered by address.
#[derive(Debug, Clone)]
pub struct BleDevice {
    pub address: String,
    pub name: String,
    pub is_connected: bool,
    pub is_bonded: bool,
    pub manufacturer_data: HashMap<u16, Vec<u8>>,
    pub service_data: HashMap<Uuid, Vec<u8>>,
    pub services: Vec<Uuid>,
    pub rssi: Option<i16>,
    pub tx_power_level: Option<i16>,
}

/// The state of the questions that a device has to answer before it can be shown: whether it is
/// connected, how strong its signal is now (asked only of a connected device), and whether it is
/// paired.
#[derive(Debug)]
pub enum DeviceQuery {
    /// Ask whether the device is connected.
    Connected,
    /// Ask the connected device for its signal strength.
    Rssi,
    /// Ask whether the device is paired.
    Paired { is_connected: bool, rssi: Option<i16> },
    /// All is answered.
    Finished(Result<BleDevice, Error>),
}

/// An answer to a question of [`DeviceQuery`].
#[derive(Debug)]
pub enum DeviceReply {
    Connected(bool),
    Rssi(Result<i16, String>),
    Paired(Result<bool, String>),
}

/// `map` holds the manufacturer data `data` under its company identifier, and nothing else.
pub open spec fn holds_manufacturer_data(
    map: Map<u16, Vec<u8>>,
    data: Option<ManufacturerData>,
) -> bool {
    match data {
        Some(m) => map.dom() == set![m.company_id] && map[m.company_id]@ == m.data@,
        None => map == Map::<u16, Vec<u8>>::empty(),
    }
}

/// `shown` presents `device`, of which the questions were answered with `is_connected`, `rssi`
/// and `is_bonded`. A device without a local name goes by its address.
pub open spec fn presents<P: Platform>(
    shown: BleDevice,
    device: DiscoveredDevice<P>,
    is_connected: bool,
    rssi: Option<i16>,
    is_bonded: bool,
) -> bool {
    &&& shown.address@ == device.id@
    &&& shown.name@ == (match device.adv_data.local_name {
        Some(name) => name@,
        None => device.id@,
    })
    &&& holds_manufacturer_data(
        shown.manufacturer_data@,
        device.adv_data.manufacturer_data,
    )
    &&& shown.service_data@ == device.adv_data.service_data@
    &&& shown.services@ == device.adv_data.services@
    &&& shown.tx_power_level == device.adv_data.tx_power_level
    &&& shown.rssi == rssi
    &&& shown.is_connected == is_connected
    &&& shown.is_bonded == is_bonded
}

/// `next` is the state of the questions to `device` after `query` was answered with `reply`. The
/// signal strength is asked only of a connected device; of any other, and if the question
/// fails, it is the advertised one or none. A reply that answers another question changes
/// nothing.
pub open spec fn query_goes<P: Platform>(
    device: DiscoveredDevice<P>,
    query: DeviceQuery,
    reply: DeviceReply,
    next: DeviceQuery,
) -> bool {
    match (query, reply) {
        (DeviceQuery::Connected, DeviceReply::Connected(true)) => next == DeviceQuery::Rssi,
        (DeviceQuery::Connected, DeviceReply::Connected(false)) => next == (DeviceQuery::Paired {
            is_connected: false,
            rssi: device.rssi,
        }),
        (DeviceQuery::Rssi, DeviceReply::Rssi(Ok(rssi))) => next == (DeviceQuery::Paired {
            is_connected: true,
            rssi: Some(rssi),
        }),
        (DeviceQuery::Rssi, DeviceReply::Rssi(Err(_))) => next == (DeviceQuery::Paired {
            is_connected: true,
            rssi: None,
        }),
        (
            DeviceQuery::Paired { is_connected, rssi },
            DeviceReply::Paired(Ok(is_bonded)),
        ) => next matches DeviceQuery::Finished(Ok(shown)) && presents(
            shown,
            device,
            is_connected,
            rssi,
            is_bonded,
        ),
        (
            DeviceQuery::Paired { .. },
            DeviceReply::Paired(Err(message)),
        ) => next matches DeviceQuery::Finished(result) && fails_with(
            result,
            ErrorView::Btleplug(message@),
        ),
        _ => next == query,
    }
}

impl vstd::std_specs::cmp::PartialEqSpecImpl for BleDevice {
    open spec fn obeys_eq_spec() -> bool {
        true
    }

    open spec fn eq_spec(&self, other: &Self) -> bool {
        self.address@ == other.address@
    }
}

impl PartialEq for BleDevice {
    fn eq(&self, other: &Self) -> (equal: bool) {
        self.address == other.address
    }
}

impl Eq for BleDevice {

}

impl vstd::std_specs::cmp::PartialOrdSpecImpl for BleDevice {
    open spec fn obeys_partial_cmp_spec() -> bool {
        true
    }

    open spec fn partial_cmp_spec(&self, other: &Self) -> Option<Ordering> {
        Some(text_order(self.address@, other.address@))
    }
}

impl PartialOrd for BleDevice {
    fn partial_cmp(&self, other: &Self) -> (order: Option<Ordering>) {
        Some(self.cmp(other))
    }
}

impl BleDevice {
    /// Compares two devices by their addresses.
    pub fn cmp(&self, other: &Self) -> (order: Ordering)
        ensures
            order == text_order(self.address@, other.address@),
    {
        compare_texts(&self.address, &other.address)
    }

    /// The device as it is shown once all questions are answered.
    fn present<P: Platform>(
        device: &DiscoveredDevice<P>,
        is_connected: bool,
        rssi: Option<i16>,
        is_bonded: bool,
    ) -> (shown: BleDevice)
        ensures
            presents(shown, *device, is_connected, rssi, is_bonded),
    {
        let adv_data = &device.adv_data;
        let name = match &adv_data.local_name {
            Some(name) => name.clone(),
            None => device.id.clone(),
        };
        let mut manufacturer_data: HashMap<u16, Vec<u8>> = HashMap::new();
        if let Some(m) = &adv_data.manufacturer_data {
            let data = m.data.clone();
            assert(data@ =~= m.data@);
            manufacturer_data.insert(m.company_id, data);
            assert(manufacturer_data@.dom() =~= set![m.company_id]);
        }
        let services = adv_data.services.clone();
        assert(services@ =~= adv_data.services@);
        BleDevice {
            address: device.id.clone(),
            name,
            is_connected,
            is_bonded,
            manufacturer_data,
            service_data: adv_data.service_data.clone(),
            services,
            rssi,
            tx_power_level: adv_data.tx_power_level,
        }
    }

    /// Moves the questions to `device` on by one answer.
    pub fn from_bluest<P: Platform>(
        device: &DiscoveredDevice<P>,
        query: DeviceQuery,
        reply: DeviceReply,
    ) -> (next: DeviceQuery)
        ensures
            query_goes(*device, query, reply, next),
    {
        match (query, reply) {
            (DeviceQuery::Connected, DeviceReply::Connected(is_connected)) => {
                if is_connected {
                    DeviceQuery::Rssi
                } else {
                    DeviceQuery::Paired { is_connected: false, rssi: device.rssi }
                }
            },
            (DeviceQuery::Rssi, DeviceReply::Rssi(rssi)) => {
                DeviceQuery::Paired { is_connected: true, rssi: rssi.ok() }
            },
            (
                DeviceQuery::Paired { is_connected, rssi },
                DeviceReply::Paired(is_paired),
            ) => match is_paired {
                Ok(is_bonded) => DeviceQuery::Finished(
                    Ok(BleDevice::present(device, is_connected, rssi, is_bonded)),
                ),
                Err(message) => DeviceQuery::Finished(Err(Error::Btleplug(message))),
            },
            (query, _) => query,
        }
    }
}

/// Once all questions are answered the device is shown, with the signal strength that was measured
/// if it is connected and with the advertised one if it is not.
pub proof fn law_answered_device_is_shown<P: Platform>(
    device: DiscoveredDevice<P>,
    is_connected: bool,
    measured: Result<i16, String>,
    is_bonded: bool,
    asked: DeviceQuery,
    measuring: DeviceQuery,
    answered: DeviceQuery,
)
    requires
        query_goes(device, DeviceQuery::Connected, DeviceReply::Connected(is_connected), asked),
        if is_connected {
            query_goes(device, asked, DeviceReply::Rssi(measured), measuring)
        } else {
            measuring == asked
        },
        query_goes(device, measuring, DeviceReply::Paired(Ok(is_bonded)), answered),
    ensures
        answered matches DeviceQuery::Finished(Ok(shown)) && presents(
            shown,
            device,
            is_connected,
            if is_connected {
                match measured {
                    Ok(rssi) => Some(rssi),
                    Err(_) => None,
                }
            } else {
                device.rssi
            },
            is_bonded,
        ),
{
}

/// Devices are totally ordered, and two of them are equal in this order exactly if they are equal.
pub proof fn law_device_order_agrees_with_equality(a: BleDevice, b: BleDevice)
    ensures
        a.partial_cmp_spec(&b) == Some(Ordering::Equal) <==> a.eq_spec(&b),
        a.partial_cmp_spec(&b) == Some(Ordering::Less) <==> b.partial_cmp_spec(&a) == Some(
            Ordering::Greater,
        ),
{
    law_texts_are_totally_ordered(a.address@, b.address@);
    law_texts_are_totally_ordered(b.address@, a.address@);
}

/// The order of devices is transitive.
pub proof fn law_device_order_is_transitive(a: BleDevice, b: BleDevice, c: BleDevice)
    requires
        a.partial_cmp_spec(&b) == Some(Ordering::Less),
        b.partial_cmp_spec(&c) == Some(Ordering::Less),
    ensures
        a.partial_cmp_spec(&c) == Some(Ordering::Less),
{
    law_text_order_is_transitive(a.address@, b.address@, c.address@);
}

/// The properties of a characteristic as the Bluetooth backend reports them.
#[derive(Debug, Clone, Copy)]
pub struct CharacteristicProperties {
    pub broadcast: bool,
    pub read: bool,
    pub write_without_response: bool,
    pub write: bool,
    pub notify: bool,
    pub indicate: bool,
    pub authenticated_signed_writes: bool,
    pub extended_properties: bool,
    pub reliable_write: bool,
    pub writable_auxiliaries: bool,
}

/// A property of a characteristic.
#[derive(Debug, Clone, Copy)]
pub enum CharProps {
    Broadcast,
    Read,
    WriteWithoutResponse,
    Write,
    Notify,
    Indicate,
    AuthenticatedSignedWrites,
    ExtendedProperties,
}

impl CharProps {
    /// The bit that stands for the property: each has one of its own, in the order of their
    /// declaration.
    pub open spec fn bit(self) -> u8 {
        match self {
            CharProps::Broadcast => 0x01,
            CharProps::Read => 0x02,
            CharProps::WriteWithoutResponse => 0x04,
            CharProps::Write => 0x08,
            CharProps::Notify => 0x10,
            CharProps::Indicate => 0x20,
            CharProps::AuthenticatedSignedWrites => 0x40,
            CharProps::ExtendedProperties => 0x80,
        }
    }
}

impl CharacteristicProperties {
    /// The characteristic has property `prop`.
    pub open spec fn has(self, prop: CharProps) -> bool {
        match prop {
            CharProps::Broadcast => self.broadcast,
            CharProps::Read => self.read,
            CharProps::WriteWithoutResponse => self.write_without_response,
            CharProps::Write => self.write,
            CharProps::Notify => self.notify,
            CharProps::Indicate => self.indicate,
            CharProps::AuthenticatedSignedWrites => self.authenticated_signed_writes,
            CharProps::ExtendedProperties => self.extended_properties,
        }
    }
}

/// A set of characteristic properties, one bit for each.
#[derive(Debug, Clone, Copy)]
pub struct CharPropSet {
    pub bits: u8,
}

impl CharPropSet {
    /// `prop` is in the set.
    pub open spec fn has(self, prop: CharProps) -> bool {
        self.bits & prop.bit() != 0
    }

    /// Whether `prop` is in the set.
    pub fn contains(&self, prop: CharProps) -> (found: bool)
        ensures
            found == self.has(prop),
    {
        let bit: u8 = match prop {
            CharProps::Broadcast => 0x01,
            CharProps::Read => 0x02,
            CharProps::WriteWithoutResponse => 0x04,
            CharProps::Write => 0x08,
            CharProps::Notify => 0x10,
            CharProps::Indicate => 0x20,
            CharProps::AuthenticatedSignedWrites => 0x40,
            CharProps::ExtendedProperties => 0x80,
        };
        self.bits & bit != 0
    }
}

fn bit_if(set: bool, bit: u8) -> (value: u8)
    ensures
        value == if set {
            bit
        } else {
            0
        },
{
    if set {
        bit
    } else {
        0
    }
}

/// The set of the reported properties. The two extended properties have no place in it.
pub fn get_flags(properties: CharacteristicProperties) -> (flags: CharPropSet)
    ensures
        forall|prop: CharProps| #[trigger] flags.has(prop) == properties.has(prop),
{
    let b0: u8 = bit_if(properties.broadcast, 0x01);
    let b1: u8 = bit_if(properties.read, 0x02);
    let b2: u8 = bit_if(properties.write_without_response, 0x04);
    let b3: u8 = bit_if(properties.write, 0x08);
    let b4: u8 = bit_if(properties.notify, 0x10);
    let b5: u8 = bit_if(properties.indicate, 0x20);
    let b6: u8 = bit_if(properties.authenticated_signed_writes, 0x40);
    let b7: u8 = bit_if(properties.extended_properties, 0x80);
    let bits: u8 = b0 | b1 | b2 | b3 | b4 | b5 | b6 | b7;
    assert(bits & 0x01 == b0 && bits & 0x02 == b1 && bits & 0x04 == b2 && bits & 0x08 == b3 && bits
        & 0x10 == b4 && bits & 0x20 == b5 && bits & 0x40 == b6 && bits & 0x80 == b7) by (bit_vector)
        requires
            bits == b0 | b1 | b2 | b3 | b4 | b5 | b6 | b7,
            b0 == 0 || b0 == 0x01,
            b1 == 0 || b1 == 0x02,
            b2 == 0 || b2 == 0x04,
            b3 == 0 || b3 == 0x08,
            b4 == 0 || b4 == 0x10,
            b5 == 0 || b5 == 0x20,
            b6 == 0 || b6 == 0x40,
            b7 == 0 || b7 == 0x80,
    ;
    CharPropSet { bits }
}

/// Two sets with the same properties are the same set.
pub proof fn law_flags_are_their_properties(a: CharPropSet, b: CharPropSet)
    requires
        forall|prop: CharProps| #[trigger] a.has(prop) == b.has(prop),
    ensures
        a == b,
{
    assert(a.has(CharProps::Broadcast) == b.has(CharProps::Broadcast));
    assert(a.has(CharProps::Read) == b.has(CharProps::Read));
    assert(a.has(CharProps::WriteWithoutResponse) == b.has(CharProps::WriteWithoutResponse));
    assert(a.has(CharProps::Write) == b.has(CharProps::Write));
    assert(a.has(CharProps::Notify) == b.has(CharProps::Notify));
    assert(a.has(CharProps::Indicate) == b.has(CharProps::Indicate));
    assert(a.has(CharProps::AuthenticatedSignedWrites) == b.has(
        CharProps::AuthenticatedSignedWrites,
    ));
    assert(a.has(CharProps::ExtendedProperties) == b.has(CharProps::ExtendedProperties));
    let (x, y) = (a.bits, b.bits);
    assert(x == y) by (bit_vector)
        requires
            (x & 0x01 != 0) == (y & 0x01 != 0),
            (x & 0x02 != 0) == (y & 0x02 != 0),
            (x & 0x04 != 0) == (y & 0x04 != 0),
            (x & 0x08 != 0) == (y & 0x08 != 0),
            (x & 0x10 != 0) == (y & 0x10 != 0),
            (x & 0x20 != 0) == (y & 0x20 != 0),
            (x & 0x40 != 0) == (y & 0x40 != 0),
            (x & 0x80 != 0) == (y & 0x80 != 0),
    ;
}

/// A characteristic of a service, as it is shown to the user.
#[derive(Debug, Clone)]
pub struct Characteristic {
    pub uuid: Uuid,
    pub descriptors: Vec<Uuid>,
    pub properties: CharPropSet,
}

/// A service of a device, as it is shown to the user.
#[derive(Debug, Clone)]
pub struct Service {
    pub uuid: Uuid,
    pub characteristics: Vec<Characteristic>,
}

/// What was read of a characteristic.
#[derive(Debug)]
pub struct CharacteristicRead {
    pub uuid: Uuid,
    /// The UUIDs of its descriptors.
    pub descriptors: Vec<Uuid>,
    pub properties: CharacteristicProperties,
}

/// What was read of a service.
#[derive(Debug)]
pub struct ServiceRead {
    pub uuid: Uuid,
    pub characteristics: Vec<CharacteristicRead>,
}

/// `shown` presents the characteristic that was read.
pub open spec fn presents_characteristic(shown: Characteristic, read: CharacteristicRead) -> bool {
    &&& shown.uuid == read.uuid
    &&& shown.descriptors@ == read.descriptors@
    &&& forall|prop: CharProps| #[trigger] shown.properties.has(prop) == read.properties.has(prop)
}

/// `shown` presents the service that was read, with all its characteristics in their order.
pub open spec fn presents_service(shown: Service, read: ServiceRead) -> bool {
    &&& shown.uuid == read.uuid
    &&& shown.characteristics@.len() == read.characteristics@.len()
    &&& forall|i: int|
        0 <= i < read.characteristics@.len() ==> presents_characteristic(
            #[trigger] shown.characteristics@[i],
            read.characteristics@[i],
        )
}

/// `shown` presents the services that were read, in their order.
pub open spec fn presents_services(shown: Seq<Service>, read: Seq<ServiceRead>) -> bool {
    &&& shown.len() == read.len()
    &&& forall|i: int| 0 <= i < read.len() ==> presents_service(#[trigger] shown[i], read[i])
}

impl Characteristic {
    /// The characteristic that was read.
    pub fn from_bluest(read: &CharacteristicRead) -> (shown: Characteristic)
        ensures
            presents_characteristic(shown, *read),
    {
        let descriptors = read.descriptors.clone();
        assert(descriptors@ =~= read.descriptors@);
        Characteristic { uuid: read.uuid, descriptors, properties: get_flags(read.properties) }
    }
}

/// The services that were read.
pub fn build_service_model(read: &Vec<ServiceRead>) -> (services: Vec<Service>)
    ensures
        presents_services(services@, read@),
{
    let mut services: Vec<Service> = Vec::new();
    for i in 0..read.len()
        invariant
            services@.len() == i,
            forall|j: int| 0 <= j < i ==> presents_service(#[trigger] services@[j], read@[j]),
    {
        let mut characteristics: Vec<Characteristic> = Vec::new();
        let found = &read[i].characteristics;
        for k in 0..found.len()
            invariant
                characteristics@.len() == k,
                forall|j: int|
                    0 <= j < k ==> presents_characteristic(
                        #[trigger] characteristics@[j],
                        found@[j],
                    ),
        {
            characteristics.push(Characteristic::from_bluest(&found[k]));
        }
        services.push(Service { uuid: read[i].uuid, characteristics });
    }
    services
}

/// How a value is written to a characteristic.
#[derive(Debug, Clone, Copy, PartialEq, Eq, Structural)]
pub enum WriteType {
    /// aka request.
    WithResponse,
    /// aka command.
    WithoutResponse,
}

/// The state of the Bluetooth adapter.
#[derive(Debug, Clone, Copy, PartialEq, Eq, Structural)]
pub enum AdapterState {
    Unknown,
    Off,
    On,
}

/// A device is shown field by field as it was found and as it answered. The signal strength is the
/// measured one of a connected device and the advertised one of any other; a device without a name
/// goes by its address; the manufacturer data stands under its company, and nothing else does.
pub proof fn law_device_is_shown_as_it_is<P: Platform>(
    device: DiscoveredDevice<P>,
    is_connected: bool,
    measured: Result<i16, String>,
    is_bonded: bool,
    asked: DeviceQuery,
    measuring: DeviceQuery,
    answered: DeviceQuery,
)
    requires
        query_goes(device, DeviceQuery::Connected, DeviceReply::Connected(is_connected), asked),
        if is_connected {
            query_goes(device, asked, DeviceReply::Rssi(measured), measuring)
        } else {
            measuring == asked
        },
        query_goes(device, measuring, DeviceReply::Paired(Ok(is_bonded)), answered),
    ensures
        answered matches DeviceQuery::Finished(Ok(shown)) && {
            &&& shown.address@ == device.id@
            &&& device.adv_data.local_name matches Some(name) ==> shown.name@ == name@
            &&& device.adv_data.local_name is None ==> shown.name@ == device.id@
            &&& shown.is_connected == is_connected
            &&& shown.is_bonded == is_bonded
            &&& shown.services@ == device.adv_data.services@
            &&& shown.service_data@ == device.adv_data.service_data@
            &&& shown.tx_power_level == device.adv_data.tx_power_level
            &&& device.adv_data.manufacturer_data is None ==> forall|company: u16|
                !shown.manufacturer_data@.contains_key(company)
            &&& device.adv_data.manufacturer_data matches Some(m) ==> {
                &&& forall|company: u16|
                    shown.manufacturer_data@.contains_key(company) <==> company == m.company_id
                &&& shown.manufacturer_data@[m.company_id]@ == m.data@
            }
            &&& !is_connected ==> shown.rssi == device.rssi
            &&& is_connected && measured is Ok ==> shown.rssi == Some(measured->Ok_0)
            &&& is_connected && measured is Err ==> shown.rssi is None
        },
{
}

/// A device is asked for its signal strength exactly if it is connected, and its pairing is asked for
/// last. If that cannot be read, the backend's error is all that comes of the questions.
pub proof fn law_pairing_that_cannot_be_read_fails<P: Platform>(
    device: DiscoveredDevice<P>,
    is_connected: bool,
    measured: Result<i16, String>,
    message: String,
    asked: DeviceQuery,
    measuring: DeviceQuery,
    answered: DeviceQuery,
)
    requires
        query_goes(device, DeviceQuery::Connected, DeviceReply::Connected(is_connected), asked),
        if is_connected {
            query_goes(device, asked, DeviceReply::Rssi(measured), measuring)
        } else {
            measuring == asked
        },
        query_goes(device, measuring, DeviceReply::Paired(Err(message)), answered),
    ensures
        is_connected <==> asked is Rssi,
        measuring is Paired,
        answered matches DeviceQuery::Finished(Err(Error::Btleplug(text))) && text@ == message@,
{
}

/// The questions to a device are put as they are said to be.
pub proof fn law_questions_are_put_as_said<P: Platform>(
    device: DiscoveredDevice<P>,
    query: DeviceQuery,
    reply: DeviceReply,
    next: DeviceQuery,
)
    requires
        call_ensures(BleDevice::from_bluest::<P>, (&device, query, reply), next),
    ensures
        query_goes(device, query, reply, next),
{
}

/// The set of the reported properties has exactly the bits of the properties that are reported, from
/// the lowest for broadcast to the highest for extended properties.
pub proof fn law_flags_have_a_bit_for_each_property(
    properties: CharacteristicProperties,
    flags: CharPropSet,
)
    requires
        call_ensures(get_flags, (properties,), flags),
    ensures
        flags.bits & 0x01 != 0 <==> properties.broadcast,
        flags.bits & 0x02 != 0 <==> properties.read,
        flags.bits & 0x04 != 0 <==> properties.write_without_response,
        flags.bits & 0x08 != 0 <==> properties.write,
        flags.bits & 0x10 != 0 <==> properties.notify,
        flags.bits & 0x20 != 0 <==> properties.indicate,
        flags.bits & 0x40 != 0 <==> properties.authenticated_signed_writes,
        flags.bits & 0x80 != 0 <==> properties.extended_properties,
{
    assert(flags.has(CharProps::Broadcast) == properties.has(CharProps::Broadcast));
    assert(flags.has(CharProps::Read) == properties.has(CharProps::Read));
    assert(flags.has(CharProps::WriteWithoutResponse) == properties.has(
        CharProps::WriteWithoutResponse,
    ));
    assert(flags.has(CharProps::Write) == properties.has(CharProps::Write));
    assert(flags.has(CharProps::Notify) == properties.has(CharProps::Notify));
    assert(flags.has(CharProps::Indicate) == properties.has(CharProps::Indicate));
    assert(flags.has(CharProps::AuthenticatedSignedWrites) == properties.has(
        CharProps::AuthenticatedSignedWrites,
    ));
    assert(flags.has(CharProps::ExtendedProperties) == properties.has(
        CharProps::ExtendedProperties,
    ));
}

/// A property is in a set exactly if its bit is.
pub proof fn law_property_is_its_bit(set: CharPropSet, prop: CharProps, found: bool)
    requires
        call_ensures(CharPropSet::contains, (&set, prop), found),
    ensures
        found == match prop {
            CharProps::Broadcast => set.bits & 0x01 != 0,
            CharProps::Read => set.bits & 0x02 != 0,
            CharProps::WriteWithoutResponse => set.bits & 0x04 != 0,
            CharProps::Write => set.bits & 0x08 != 0,
            CharProps::Notify => set.bits & 0x10 != 0,
            CharProps::Indicate => set.bits & 0x20 != 0,
            CharProps::AuthenticatedSignedWrites => set.bits & 0x40 != 0,
            CharProps::ExtendedProperties => set.bits & 0x80 != 0,
        },
{
}

/// A characteristic is shown with its UUID, with all its descriptors in their order, and with exactly
/// the properties that were read.
pub open spec fn shows_characteristic(shown: Characteristic, read: CharacteristicRead) -> bool {
    &&& shown.uuid == read.uuid
    &&& shown.descriptors@.len() == read.descriptors@.len()
    &&& forall|k: int|
        0 <= k < read.descriptors@.len() ==> shown.descriptors@[k] == #[trigger] read.descriptors@[k]
    &&& shown.properties.bits & 0x01 != 0 <==> read.properties.broadcast
    &&& shown.properties.bits & 0x02 != 0 <==> read.properties.read
    &&& shown.properties.bits & 0x04 != 0 <==> read.properties.write_without_response
    &&& shown.properties.bits & 0x08 != 0 <==> read.properties.write
    &&& shown.properties.bits & 0x10 != 0 <==> read.properties.notify
    &&& shown.properties.bits & 0x20 != 0 <==> read.properties.indicate
    &&& shown.properties.bits & 0x40 != 0 <==> read.properties.authenticated_signed_writes
    &&& shown.properties.bits & 0x80 != 0 <==> read.properties.extended_properties
}

proof fn lemma_presented_characteristic(shown: Characteristic, read: CharacteristicRead)
    requires
        presents_characteristic(shown, read),
    ensures
        shows_characteristic(shown, read),
{
    let flags = shown.properties;
    let properties = read.properties;
    assert(flags.has(CharProps::Broadcast) == properties.has(CharProps::Broadcast));
    assert(flags.has(CharProps::Read) == properties.has(CharProps::Read));
    assert(flags.has(CharProps::WriteWithoutResponse) == properties.has(
        CharProps::WriteWithoutResponse,
    ));
    assert(flags.has(CharProps::Write) == properties.has(CharProps::Write));
    assert(flags.has(CharProps::Notify) == properties.has(CharProps::Notify));
    assert(flags.has(CharProps::Indicate) == properties.has(CharProps::Indicate));
    assert(flags.has(CharProps::AuthenticatedSignedWrites) == properties.has(
        CharProps::AuthenticatedSignedWrites,
    ));
    assert(flags.has(CharProps::ExtendedProperties) == properties.has(
        CharProps::ExtendedProperties,
    ));
}

/// A characteristic is shown as it was read.
pub proof fn law_characteristic_is_shown_as_read(read: CharacteristicRead, shown: Characteristic)
    requires
        call_ensures(Characteristic::from_bluest, (&read,), shown),
    ensures
        shows_characteristic(shown, read),
{
    lemma_presented_characteristic(shown, read);
}

/// Every service that was read is shown at its place, with every characteristic at its place and as it
/// was read, and no other is.
pub proof fn law_presented_services_are_those_read(shown: Seq<Service>, read: Seq<ServiceRead>)
    requires
        presents_services(shown, read),
    ensures
        shown.len() == read.len(),
        forall|i: int| 0 <= i < read.len() ==> (#[trigger] shown[i]).uuid == read[i].uuid,
        forall|i: int|
            0 <= i < read.len() ==> (#[trigger] shown[i]).characteristics@.len()
                == read[i].characteristics@.len(),
        forall|i: int, k: int|
            0 <= i < read.len() && 0 <= k < read[i].characteristics@.len() ==> shows_characteristic(
                #[trigger] shown[i].characteristics@[k],
                read[i].characteristics@[k],
            ),
{
    assert forall|i: int| 0 <= i < read.len() implies (#[trigger] shown[i]).uuid == read[i].uuid by {
        assert(presents_service(shown[i], read[i]));
    }
    assert forall|i: int, k: int|
        0 <= i < read.len() && 0 <= k < read[i].characteristics@.len() implies shows_characteristic(
        #[trigger] shown[i].characteristics@[k],
        read[i].characteristics@[k],
    ) by {
        assert(presents_service(shown[i], read[i]));
        lemma_presented_characteristic(
            shown[i].characteristics@[k],
            read[i].characteristics@[k],
        );
    }
}

/// The services that are built are those that were read.
pub proof fn law_built_services_are_those_read(read: Vec<ServiceRead>, services: Vec<Service>)
    requires
        call_ensures(build_service_model, (&read,), services),
    ensures
        presents_services(services@, read@),
        services@.len() == read@.len(),
{
}

/// Devices are compared by their addresses and by nothing else.
pub proof fn law_devices_are_compared_by_address(a: BleDevice, b: BleDevice, order: Ordering)
    requires
        call_ensures(BleDevice::cmp, (&a, &b), order),
    ensures
        order == text_order(a.address@, b.address@),
        a.eq_spec(&b) <==> a.address@ == b.address@,
        a.partial_cmp_spec(&b) == Some(order),
{
}

} // verus!
