use tauri_plugin_blec::connection::{Connection, KnownCharac, ServiceListing};
use tauri_plugin_blec::error::Error;
use tauri_plugin_blec::handler::{finish_read, UpdateRound};
use tauri_plugin_blec::models::{
    AdapterState, AdvertisementData, CharacteristicProperties, CharacteristicRead,
    DiscoveredDevice, ServiceRead, WriteType,
};
use tauri_plugin_blec::platform::Platform;
use tauri_plugin_blec::timeout::{
    run_with_given_timeout, run_with_timeout, Timed, COMMAND_TIMEOUT_SECS,
};
use tauri_plugin_blec::{check_permissions, get_handler, try_init, Handler};

use std::collections::HashMap;
use std::sync::Arc;

struct Bench;

impl Platform for Bench {
    type Adapter = u8;
    type Device = ();
    type Charac = u32;
    type Task = u32;
    type Sender = u8;
    type SyncCallback = ();
    type AsyncCallback = ();
}

const ADDRESS: &str = "00:11:22:33:44:55";
const FIRST_SERVICE: u128 = 0x0000180f00001000800000805f9b34fb;
const SECOND_SERVICE: u128 = 0x0000180d00001000800000805f9b34fb;
const SHARED: u128 = 0x51FF12BB3ED846E5B4F9D64E2FEC021B;
const SECOND_ONLY: u128 = 0x00002a3700001000800000805f9b34fb;

fn device() -> Arc<DiscoveredDevice<Bench>> {
    Arc::new(DiscoveredDevice {
        id: ADDRESS.to_string(),
        device: (),
        adv_data: AdvertisementData {
            local_name: None,
            manufacturer_data: None,
            services: vec![],
            service_data: HashMap::new(),
            tx_power_level: None,
        },
        rssi: None,
    })
}

fn read(uuid: u128) -> CharacteristicRead {
    CharacteristicRead {
        uuid,
        descriptors: vec![],
        properties: CharacteristicProperties {
            broadcast: false,
            read: true,
            write_without_response: false,
            write: false,
            notify: false,
            indicate: false,
            authenticated_signed_writes: false,
            extended_properties: false,
            reliable_write: false,
            writable_auxiliaries: false,
        },
    }
}

fn charac(uuid: u128, handle: u32) -> KnownCharac<Bench> {
    KnownCharac { uuid, handle: Arc::new(handle) }
}

fn listing() -> ServiceListing<Bench> {
    ServiceListing {
        services: vec![
            ServiceRead { uuid: FIRST_SERVICE, characteristics: vec![read(SHARED)] },
            ServiceRead {
                uuid: SECOND_SERVICE,
                characteristics: vec![read(SHARED), read(SECOND_ONLY)],
            },
        ],
        characs: vec![
            vec![charac(SHARED, 1)],
            vec![charac(SHARED, 2), charac(SECOND_ONLY, 3)],
        ],
    }
}

fn connected() -> Handler<Bench> {
    let mut handler = Handler::new();
    handler.connection = Some(Connection::build(device(), listing()));
    handler.connected = true;
    handler
}

#[test]
fn new_handler_knows_nothing() {
    let handler: Handler<Bench> = Handler::new();
    assert!(handler.get_or_init_adapter().is_none());
    assert!(!handler.is_connected());
    assert!(!handler.is_scanning(|_| false));
    assert!(handler.get_connected_device().is_none());
    assert!(handler.scan_update_channels.is_empty());
    assert!(handler.connection_update_channels.is_empty());
    assert!(!handler.allow_ibeacons);
    assert!(matches!(
        handler.lookup_device(ADDRESS),
        Err(Error::UnknownPeripheral(ref address)) if address == ADDRESS
    ));
}

#[test]
fn known_device_is_found_by_its_address() {
    let mut handler: Handler<Bench> = Handler::new();
    handler.known_devices.insert(ADDRESS.to_string(), device());
    assert_eq!(handler.lookup_device(ADDRESS).ok().unwrap().id, ADDRESS);
    assert!(handler.lookup_device("00:11:22:33:44:56").is_err());
    assert!(handler.lookup_device("").is_err());
}

#[test]
fn first_adapter_is_kept() {
    let mut handler: Handler<Bench> = Handler::new();
    assert_eq!(
        handler.adapter_opened(Err("no adapter".to_string())),
        Err(Error::Btleplug("no adapter".to_string()))
    );
    assert!(handler.get_or_init_adapter().is_none());
    assert_eq!(handler.adapter_opened(Ok(4)), Ok(Arc::new(4)));
    assert_eq!(handler.adapter_opened(Ok(5)), Ok(Arc::new(5)));
    assert_eq!(handler.get_or_init_adapter(), Some(Arc::new(4)));
}

#[test]
fn handler_scans_until_the_task_ends_or_is_stopped() {
    let mut handler: Handler<Bench> = Handler::new();
    handler.scan_task = Some(17);
    assert!(handler.is_scanning(|task| *task != 17));
    assert!(!handler.is_scanning(|task| *task == 17));
    let stopped = handler.stop_scan().unwrap();
    assert_eq!(stopped.task, 17);
    assert!(!stopped.status);
    assert!(!handler.is_scanning(|_| false));
    assert!(handler.stop_scan().is_none());
}

#[test]
fn connected_device_is_the_device_of_the_connection() {
    let handler = connected();
    assert_eq!(handler.get_connected_device().unwrap().id, ADDRESS);
    assert_eq!(handler.require_connected_device().ok().unwrap().id, ADDRESS);
    assert_eq!(handler.connected_device().ok().unwrap().id, ADDRESS);
    assert!(handler.is_connected_to(ADDRESS));
    assert!(!handler.is_connected_to("00:11:22:33:44:56"));
}

#[test]
fn without_a_connection_no_device_is_connected() {
    let mut handler: Handler<Bench> = Handler::new();
    assert!(matches!(handler.connected_device(), Err(Error::NoDeviceConnected)));
    assert!(matches!(handler.require_connected_device(), Err(Error::NoDeviceConnected)));
    assert!(!handler.is_connected_to(ADDRESS));
    assert_eq!(handler.require_charac(SHARED, None), Err(Error::NoDeviceConnected));
    assert_eq!(handler.recv_data(SHARED, None), Err(Error::NoDeviceConnected));
    assert!(matches!(
        handler.send_data(SHARED, None, &[1], WriteType::WithResponse),
        Err(Error::NoDeviceConnected)
    ));
    assert_eq!(handler.unsubscribe(SHARED), Err(Error::NoDeviceConnected));
}

#[test]
fn characteristic_is_the_first_with_its_uuid() {
    let handler = connected();
    assert_eq!(handler.require_charac(SHARED, None), Ok(Arc::new(1)));
    assert_eq!(handler.require_charac(SECOND_ONLY, None), Ok(Arc::new(3)));
    assert_eq!(handler.recv_data(SECOND_ONLY, None), Ok(Arc::new(3)));
}

#[test]
fn named_service_must_offer_the_characteristic() {
    let handler = connected();
    assert_eq!(handler.require_charac(SHARED, Some(FIRST_SERVICE)), Ok(Arc::new(1)));
    assert_eq!(handler.require_charac(SHARED, Some(SECOND_SERVICE)), Ok(Arc::new(2)));
    assert_eq!(handler.require_charac(SECOND_ONLY, Some(SECOND_SERVICE)), Ok(Arc::new(3)));
    assert_eq!(
        handler.require_charac(SECOND_ONLY, Some(FIRST_SERVICE)),
        Err(Error::CharacNotAvailable("00002a37-0000-1000-8000-00805f9b34fb".to_string()))
    );
    assert_eq!(
        handler.require_charac(SHARED, Some(0x1234)),
        Err(Error::CharacNotAvailable("51ff12bb-3ed8-46e5-b4f9-d64e2fec021b".to_string()))
    );
}

#[test]
fn service_that_comes_twice_is_the_first_one() {
    let listing = ServiceListing {
        services: vec![
            ServiceRead { uuid: FIRST_SERVICE, characteristics: vec![read(SHARED)] },
            ServiceRead {
                uuid: FIRST_SERVICE,
                characteristics: vec![read(SHARED), read(SECOND_ONLY)],
            },
        ],
        characs: vec![
            vec![charac(SHARED, 1)],
            vec![charac(SHARED, 2), charac(SECOND_ONLY, 3)],
        ],
    };
    let conn = Connection::build(device(), listing);
    assert_eq!(conn.get_charac(SHARED, Some(FIRST_SERVICE)), Ok(Arc::new(1)));
    assert!(conn.get_charac(SECOND_ONLY, Some(FIRST_SERVICE)).is_err());
    assert_eq!(conn.get_charac(SECOND_ONLY, None), Ok(Arc::new(3)));
}

#[test]
fn characteristic_that_is_missing_is_named_by_its_uuid() {
    let handler = connected();
    for (uuid, text) in [
        (0, "00000000-0000-0000-0000-000000000000"),
        (1, "00000000-0000-0000-0000-000000000001"),
        (u128::MAX, "ffffffff-ffff-ffff-ffff-ffffffffffff"),
        (0x0123456789abcdef0123456789abcdef, "01234567-89ab-cdef-0123-456789abcdef"),
    ] {
        assert_eq!(
            handler.recv_data(uuid, None),
            Err(Error::CharacNotAvailable(text.to_string()))
        );
    }
}

#[test]
fn different_uuids_have_different_texts() {
    let handler = connected();
    let mut texts = vec![];
    for shift in 0..128 {
        match handler.recv_data(1 << shift, None) {
            Err(Error::CharacNotAvailable(text)) => texts.push(text),
            _ => panic!("the characteristic is to be missing"),
        }
    }
    texts.sort();
    texts.dedup();
    assert_eq!(texts.len(), 128);
}

#[test]
fn data_is_written_as_asked() {
    let handler = connected();
    let data = [1, 2, 3, 4, 5];
    let request = handler.send_data(SHARED, None, &data, WriteType::WithResponse).ok().unwrap();
    assert_eq!(*request.charac, 1);
    assert_eq!(request.data, &data);
    assert!(request.with_response);
    assert_eq!(request.finish(Timed::Finished(Ok(()))), Ok(()));
    let request = handler
        .send_data(SECOND_ONLY, Some(SECOND_SERVICE), &[], WriteType::WithoutResponse)
        .ok()
        .unwrap();
    assert_eq!(*request.charac, 3);
    assert!(!request.with_response);
    assert_eq!(
        request.finish(Timed::Finished(Err("refused".to_string()))),
        Err(Error::Btleplug("refused".to_string()))
    );
    let request = handler.send_data(SHARED, None, &data, WriteType::WithResponse).ok().unwrap();
    assert_eq!(request.finish(Timed::Elapsed), Err(Error::Timeout("write".to_string())));
}

#[test]
fn read_ends_with_its_data_its_error_or_a_timeout() {
    assert_eq!(finish_read(Timed::Finished(Ok(vec![7, 8]))), Ok(vec![7, 8]));
    assert_eq!(
        finish_read(Timed::Finished(Err("gone".to_string()))),
        Err(Error::Btleplug("gone".to_string()))
    );
    assert_eq!(finish_read(Timed::Elapsed), Err(Error::Timeout("read".to_string())));
}

#[test]
fn timeout_names_the_command() {
    assert_eq!(COMMAND_TIMEOUT_SECS, 5);
    assert_eq!(
        run_with_timeout::<()>(Timed::Elapsed, "Connect"),
        Err(Error::Timeout("Connect".to_string()))
    );
    assert_eq!(run_with_timeout(Timed::Finished(Ok(3)), "Connect"), Ok(3));
    assert_eq!(
        run_with_given_timeout::<u8>(Timed::Finished(Err(Error::ConnectionFailed)), "scan"),
        Err(Error::ConnectionFailed)
    );
    assert_eq!(
        run_with_given_timeout::<u8>(Timed::Elapsed, "scan"),
        Err(Error::Timeout("scan".to_string()))
    );
}

#[test]
fn listeners_are_kept_in_the_order_of_their_coming() {
    let mut handler: Handler<Bench> = Handler::new();
    handler.set_scanning_update_channel(1);
    handler.set_scanning_update_channel(2);
    handler.set_connection_update_channel(3);
    assert_eq!(handler.scan_update_channels, vec![1, 2]);
    assert_eq!(handler.connection_update_channels, vec![3]);
    assert_eq!(handler.send_scan_update(true).total, 2);
    assert!(handler.send_scan_update(true).state);
    assert_eq!(handler.send_connection_update(false).total, 1);
    assert!(!handler.send_connection_update(false).state);
}

#[test]
fn every_listener_is_told_whoever_fails() {
    let mut round = UpdateRound::new(true, 4);
    let mut told = vec![];
    while let Some(listener) = round.target() {
        told.push(listener);
        round = round.sent(listener % 2 == 0);
    }
    assert_eq!(told, vec![0, 1, 2, 3]);
    assert_eq!(round.failed, vec![1, 3]);
    assert!(round.state);
    // after the last one nothing is left to do
    let round = round.sent(false);
    assert_eq!(round.next, 4);
    assert_eq!(round.failed, vec![1, 3]);
    assert_eq!(UpdateRound::new(false, 0).target(), None);
}

#[test]
fn connect_event_counts_for_the_connected_device_only() {
    let mut handler = connected();
    handler.connected = false;
    assert_eq!(handler.handle_connect("00:11:22:33:44:56"), None);
    assert!(!handler.is_connected());
    assert_eq!(handler.handle_connect(ADDRESS), Some(true));
    assert!(handler.is_connected());
    let mut handler: Handler<Bench> = Handler::new();
    assert_eq!(handler.handle_connect(ADDRESS), None);
    assert!(!handler.is_connected());
}

#[test]
fn connect_event_counts_for_the_device_that_is_being_connected() {
    let mut handler: Handler<Bench> = Handler::new();
    handler.connecting = Some(device());
    assert!(handler.is_connecting_to(ADDRESS));
    assert_eq!(handler.handle_connect("00:11:22:33:44:56"), None);
    assert!(!handler.is_connected());
    assert_eq!(handler.handle_connect(ADDRESS), Some(true));
    assert!(handler.is_connected());
}

#[test]
fn abandoned_device_is_not_being_connected() {
    let mut handler: Handler<Bench> = Handler::new();
    handler.connecting = Some(device());
    handler.abandon_connect();
    assert!(handler.connecting.is_none());
    assert_eq!(handler.handle_connect(ADDRESS), None);
}

#[test]
fn unsubscribe_hands_out_the_listeners() {
    let mut handler = connected();
    let conn = handler.connection.as_mut().unwrap();
    conn.add_listener(SHARED, 11);
    conn.add_listener(SECOND_ONLY, 12);
    conn.add_listener(SHARED, 13);
    assert_eq!(handler.unsubscribe(SHARED), Ok(vec![11, 13]));
    assert_eq!(handler.unsubscribe(SHARED), Ok(vec![]));
    let conn = handler.connection.as_ref().unwrap();
    assert_eq!(conn.notify_listeners.len(), 1);
    assert_eq!(conn.notify_listeners[&SECOND_ONLY], vec![12]);
}

#[test]
fn closed_connection_hands_out_all_its_tasks() {
    let mut conn = Connection::build(device(), listing());
    conn.add_listener(SHARED, 21);
    conn.add_listener(SECOND_ONLY, 22);
    conn.add_listener(SHARED, 24);
    conn.device_event_handle = Some(23);
    let mut tasks = conn.close();
    assert_eq!(tasks.last(), Some(&23));
    tasks.sort();
    assert_eq!(tasks, vec![21, 22, 23, 24]);
    assert!(Connection::build(device(), listing()).close().is_empty());
}

#[test]
fn refreshed_connection_knows_the_new_services_only() {
    let mut conn = Connection::build(device(), listing());
    assert_eq!(conn.services.len(), 2);
    assert_eq!(conn.characs.len(), 2);
    assert_eq!(conn.characs[1].len(), 2);
    conn.add_listener(SHARED, 21);
    conn.refresh_services_characs(ServiceListing {
        services: vec![ServiceRead { uuid: SECOND_SERVICE, characteristics: vec![] }],
        characs: vec![vec![]],
    });
    assert_eq!(conn.services.len(), 1);
    assert_eq!(conn.services[0].uuid, SECOND_SERVICE);
    assert_eq!(conn.characs.len(), 1);
    assert!(conn.characs[0].is_empty());
    assert_eq!(conn.notify_listeners.len(), 1);
    assert!(conn.get_charac(SHARED, None).is_err());
}

#[test]
fn adapter_state_follows_availability() {
    assert_eq!(Handler::<Bench>::get_adapter_state(Ok(Ok(true))), AdapterState::On);
    assert_eq!(Handler::<Bench>::get_adapter_state(Ok(Ok(false))), AdapterState::Off);
    assert_eq!(
        Handler::<Bench>::get_adapter_state(Ok(Err("broken".to_string()))),
        AdapterState::Unknown
    );
    assert_eq!(
        Handler::<Bench>::get_adapter_state(Err(Error::Btleplug("no adapter".to_string()))),
        AdapterState::Unknown
    );
}

#[test]
fn handler_is_initialized_once() {
    let mut slot = None;
    assert_eq!(get_handler(slot), Err(Error::HandlerNotInitialized));
    assert_eq!(
        try_init(&mut slot, Err(Error::Btleplug("broken".to_string()))),
        Err(Error::Btleplug("broken".to_string()))
    );
    assert_eq!(get_handler(slot), Err(Error::HandlerNotInitialized));
    assert_eq!(try_init(&mut slot, Ok(3)), Ok(()));
    assert_eq!(get_handler(slot), Ok(3));
    // a second handler does not replace the first
    assert_eq!(try_init(&mut slot, Ok(4)), Ok(()));
    assert_eq!(try_init(&mut slot, Err(Error::NoDeviceConnected)), Err(Error::NoDeviceConnected));
    assert_eq!(get_handler(slot), Ok(3));
}

#[test]
fn handler_must_be_initialized() {
    assert_eq!(get_handler(Some(3)), Ok(3));
    assert_eq!(get_handler::<u8>(None), Err(Error::HandlerNotInitialized));
}

#[test]
fn desktop_needs_no_permissions() {
    assert_eq!(check_permissions(true), Ok(true));
    assert_eq!(check_permissions(false), Ok(true));
}
