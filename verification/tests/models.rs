use tauri_plugin_blec::error::Error;
use tauri_plugin_blec::models::{
    build_service_model, get_flags, AdvertisementData, BleDevice, CharPropSet, CharProps,
    Characteristic, CharacteristicProperties, CharacteristicRead, DeviceQuery, DeviceReply,
    DiscoveredDevice, ManufacturerData, ServiceRead,
};
use tauri_plugin_blec::platform::Platform;

use std::collections::HashMap;

struct Bench;

impl Platform for Bench {
    type Adapter = ();
    type Device = ();
    type Charac = ();
    type Task = ();
    type Sender = ();
    type SyncCallback = ();
    type AsyncCallback = ();
}

fn discovered(local_name: Option<&str>) -> DiscoveredDevice<Bench> {
    let mut service_data = HashMap::new();
    service_data.insert(0x180f_u128, vec![9, 8]);
    DiscoveredDevice {
        id: "00:11:22:33:44:55".to_string(),
        device: (),
        adv_data: AdvertisementData {
            local_name: local_name.map(|name| name.to_string()),
            manufacturer_data: Some(ManufacturerData { company_id: 0x004c, data: vec![1, 2, 3] }),
            services: vec![0x180f, 0x180d],
            service_data,
            tx_power_level: Some(-4),
        },
        rssi: Some(-70),
    }
}

fn nothing() -> CharacteristicProperties {
    CharacteristicProperties {
        broadcast: false,
        read: false,
        write_without_response: false,
        write: false,
        notify: false,
        indicate: false,
        authenticated_signed_writes: false,
        extended_properties: false,
        reliable_write: false,
        writable_auxiliaries: false,
    }
}

fn everything() -> [CharProps; 8] {
    [
        CharProps::Broadcast,
        CharProps::Read,
        CharProps::WriteWithoutResponse,
        CharProps::Write,
        CharProps::Notify,
        CharProps::Indicate,
        CharProps::AuthenticatedSignedWrites,
        CharProps::ExtendedProperties,
    ]
}

fn shown(
    device: &DiscoveredDevice<Bench>,
    replies: Vec<DeviceReply>,
) -> Option<Result<BleDevice, Error>> {
    let mut query = DeviceQuery::Connected;
    for reply in replies {
        query = BleDevice::from_bluest(device, query, reply);
    }
    match query {
        DeviceQuery::Finished(result) => Some(result),
        _ => None,
    }
}

#[test]
fn device_that_is_not_connected_is_shown_as_advertised() {
    let device = discovered(Some("Thermometer"));
    let ble = shown(&device, vec![DeviceReply::Connected(false), DeviceReply::Paired(Ok(true))])
        .unwrap()
        .unwrap();
    assert_eq!(ble.address, "00:11:22:33:44:55");
    assert_eq!(ble.name, "Thermometer");
    assert!(!ble.is_connected);
    assert!(ble.is_bonded);
    assert_eq!(ble.rssi, Some(-70));
    assert_eq!(ble.tx_power_level, Some(-4));
    assert_eq!(ble.services, vec![0x180f, 0x180d]);
    assert_eq!(ble.manufacturer_data.len(), 1);
    assert_eq!(ble.manufacturer_data[&0x004c], vec![1, 2, 3]);
    assert_eq!(ble.service_data.len(), 1);
    assert_eq!(ble.service_data[&0x180f], vec![9, 8]);
}

#[test]
fn connected_device_is_shown_with_its_measured_signal() {
    let device = discovered(Some("Thermometer"));
    let ble = shown(
        &device,
        vec![
            DeviceReply::Connected(true),
            DeviceReply::Rssi(Ok(-42)),
            DeviceReply::Paired(Ok(false)),
        ],
    )
    .unwrap()
    .unwrap();
    assert!(ble.is_connected);
    assert!(!ble.is_bonded);
    assert_eq!(ble.rssi, Some(-42));
}

#[test]
fn signal_that_cannot_be_measured_is_left_out() {
    let ble = shown(
        &discovered(None),
        vec![
            DeviceReply::Connected(true),
            DeviceReply::Rssi(Err("not supported".to_string())),
            DeviceReply::Paired(Ok(false)),
        ],
    )
    .unwrap()
    .unwrap();
    assert_eq!(ble.rssi, None);
}

#[test]
fn device_without_a_name_goes_by_its_address() {
    let mut device = discovered(None);
    device.adv_data.manufacturer_data = None;
    let ble = shown(&device, vec![DeviceReply::Connected(false), DeviceReply::Paired(Ok(false))])
        .unwrap()
        .unwrap();
    assert_eq!(ble.name, "00:11:22:33:44:55");
    assert!(ble.manufacturer_data.is_empty());
}

#[test]
fn device_whose_pairing_cannot_be_read_is_not_shown() {
    let result = shown(
        &discovered(None),
        vec![DeviceReply::Connected(false), DeviceReply::Paired(Err("gone".to_string()))],
    );
    assert!(matches!(result, Some(Err(Error::Btleplug(ref text))) if text == "gone"));
}

#[test]
fn reply_to_another_question_changes_nothing() {
    let device = discovered(None);
    let query =
        BleDevice::from_bluest(&device, DeviceQuery::Connected, DeviceReply::Paired(Ok(true)));
    assert!(matches!(query, DeviceQuery::Connected));
    let query = BleDevice::from_bluest(&device, DeviceQuery::Rssi, DeviceReply::Connected(false));
    assert!(matches!(query, DeviceQuery::Rssi));
    assert!(shown(&device, vec![DeviceReply::Connected(true)]).is_none());
}

#[test]
fn each_property_has_its_own_bit() {
    let mut single = vec![nothing(); 8];
    single[0].broadcast = true;
    single[1].read = true;
    single[2].write_without_response = true;
    single[3].write = true;
    single[4].notify = true;
    single[5].indicate = true;
    single[6].authenticated_signed_writes = true;
    single[7].extended_properties = true;
    for i in 0..8 {
        let flags = get_flags(single[i]);
        assert_eq!(flags.bits, 1 << i);
        for (k, prop) in everything().into_iter().enumerate() {
            assert_eq!(flags.contains(prop), k == i);
        }
    }
}

#[test]
fn flags_are_the_union_of_their_properties() {
    assert_eq!(get_flags(nothing()).bits, 0);
    let mut properties = nothing();
    properties.read = true;
    properties.write = true;
    properties.notify = true;
    assert_eq!(get_flags(properties).bits, 0b0001_1010);
    for bits in [0x00, 0x5a, 0xff] {
        let set = CharPropSet { bits };
        let rebuilt = everything()
            .into_iter()
            .enumerate()
            .fold(0, |sum, (i, prop)| if set.contains(prop) { sum | 1 << i } else { sum });
        assert_eq!(rebuilt, bits);
    }
}

#[test]
fn extended_properties_have_no_flag() {
    let mut properties = nothing();
    properties.reliable_write = true;
    properties.writable_auxiliaries = true;
    assert_eq!(get_flags(properties).bits, 0);
}

fn characteristic(uuid: u128, descriptors: Vec<u128>) -> CharacteristicRead {
    let mut properties = nothing();
    properties.read = true;
    CharacteristicRead { uuid, descriptors, properties }
}

#[test]
fn characteristic_is_shown_as_it_was_read() {
    let shown = Characteristic::from_bluest(&characteristic(0x2a19, vec![0x2902, 0x2901]));
    assert_eq!(shown.uuid, 0x2a19);
    assert_eq!(shown.descriptors, vec![0x2902, 0x2901]);
    assert_eq!(shown.properties.bits, 0x02);
}

#[test]
fn services_are_shown_in_their_order() {
    let read = vec![
        ServiceRead {
            uuid: 0x180f,
            characteristics: vec![characteristic(0x2a19, vec![]), characteristic(0x2a1a, vec![1])],
        },
        ServiceRead { uuid: 0x1800, characteristics: vec![] },
    ];
    let services = build_service_model(&read);
    assert_eq!(services.len(), 2);
    assert_eq!(services[0].uuid, 0x180f);
    assert_eq!(services[0].characteristics.len(), 2);
    assert_eq!(services[0].characteristics[0].uuid, 0x2a19);
    assert_eq!(services[0].characteristics[1].uuid, 0x2a1a);
    assert_eq!(services[0].characteristics[1].descriptors, vec![1]);
    assert_eq!(services[1].uuid, 0x1800);
    assert!(services[1].characteristics.is_empty());
    assert!(build_service_model(&vec![]).is_empty());
}
