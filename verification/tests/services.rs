use tauri_plugin_blec::connection::{Connection, KnownCharac, ServiceListing};
use tauri_plugin_blec::error::Error;
use tauri_plugin_blec::event_handlers::OnDisconnectHandler;
use tauri_plugin_blec::handler::Handler;
use tauri_plugin_blec::models::{
    AdvertisementData, CharacteristicProperties, CharacteristicRead, DiscoveredDevice, ServiceRead,
};
use tauri_plugin_blec::platform::Platform;
use tauri_plugin_blec::services::{ListServicesEvent, ListServicesOp};
use tauri_plugin_blec::subscribe::{
    subscribe_handler, ListenEvent, ListenTask, SubscribeEvent, SubscribeOp,
};
use tauri_plugin_blec::timeout::Timed;

use std::collections::HashMap;
use std::sync::Arc;

struct Bench;

impl Platform for Bench {
    type Adapter = ();
    type Device = ();
    type Charac = u32;
    type Task = u32;
    type Sender = ();
    type SyncCallback = ();
    type AsyncCallback = ();
}

const ADDRESS: &str = "00:11:22:33:44:55";
const OTHER: &str = "00:11:22:33:44:56";
const SERVICE: u128 = 0x0000180d00001000800000805f9b34fb;
const CHARACTERISTIC: u128 = 0x51FF12BB3ED846E5B4F9D64E2FEC021B;

fn device(address: &str) -> Arc<DiscoveredDevice<Bench>> {
    Arc::new(DiscoveredDevice {
        id: address.to_string(),
        device: (),
        adv_data: AdvertisementData {
            local_name: None,
            manufacturer_data: None,
            services: vec![],
            service_data: HashMap::new(),
            tx_power_level: None,
        },
        rssi: None,
    })
}

fn read() -> Vec<ServiceRead> {
    let properties = CharacteristicProperties {
        broadcast: false,
        read: false,
        write_without_response: false,
        write: false,
        notify: true,
        indicate: false,
        authenticated_signed_writes: false,
        extended_properties: false,
        reliable_write: false,
        writable_auxiliaries: false,
    };
    vec![ServiceRead {
        uuid: SERVICE,
        characteristics: vec![CharacteristicRead {
            uuid: CHARACTERISTIC,
            descriptors: vec![],
            properties,
        }],
    }]
}

/// A handler that knows two devices and is connected to `address`, if one is given.
fn handler(address: Option<&str>) -> Handler<Bench> {
    let mut handler = Handler::new();
    handler.known_devices.insert(ADDRESS.to_string(), device(ADDRESS));
    handler.known_devices.insert(OTHER.to_string(), device(OTHER));
    if let Some(address) = address {
        let listing = ServiceListing {
            services: read(),
            characs: vec![vec![KnownCharac { uuid: CHARACTERISTIC, handle: Arc::new(9) }]],
        };
        handler.connection = Some(Connection::build(device(address), listing));
        handler.connected = true;
    }
    handler
}

fn list(
    handler: &Handler<Bench>,
    address: &str,
    events: Vec<ListServicesEvent>,
) -> ListServicesOp<Bench> {
    let mut op = ListServicesOp::Requested(address.to_string());
    for event in events {
        op = handler.discover_services(op, event);
    }
    op
}

#[test]
fn connected_device_is_only_read() {
    let handler = handler(Some(ADDRESS));
    let op = list(&handler, ADDRESS, vec![ListServicesEvent::Proceed]);
    assert!(matches!(op, ListServicesOp::Reading(ref device) if device.id == ADDRESS));
    let op = handler.discover_services(op, ListServicesEvent::Read(Ok(read())));
    match op {
        ListServicesOp::Finished(Ok(services)) => {
            assert_eq!(services.len(), 1);
            assert_eq!(services[0].uuid, SERVICE);
            assert_eq!(services[0].characteristics[0].uuid, CHARACTERISTIC);
            assert_eq!(services[0].characteristics[0].properties.bits, 0x10);
        }
        _ => panic!("the services are to be listed"),
    }
}

#[test]
fn other_device_is_connected_for_the_purpose_and_disconnected_again() {
    let handler = handler(None);
    let op = list(&handler, ADDRESS, vec![ListServicesEvent::Proceed]);
    assert!(matches!(op, ListServicesOp::Checking(ref address, _) if address == ADDRESS));
    assert!(op.connect_request().is_none());
    let op = handler.discover_services(op, ListServicesEvent::DeviceConnected(false));
    assert!(matches!(op, ListServicesOp::Connecting(ref address, _) if address == ADDRESS));
    let request = op.connect_request().unwrap();
    assert_eq!(request.address, ADDRESS);
    assert!(matches!(request.on_disconnect, OnDisconnectHandler::NoHandler));
    assert!(request.allow_ibeacons);
    let op = handler.discover_services(op, ListServicesEvent::Connected(Ok(())));
    assert!(matches!(op, ListServicesOp::ReadingOnce(ref device) if device.id == ADDRESS));
    let op = handler.discover_services(op, ListServicesEvent::Read(Ok(read())));
    assert!(matches!(op, ListServicesOp::Disconnecting(Ok(_))));
    // that the device could not be disconnected does not spoil the list
    let op = handler.discover_services(
        op,
        ListServicesEvent::Disconnected(Err(Error::DisconnectFailed)),
    );
    match op {
        ListServicesOp::Finished(Ok(services)) => assert_eq!(services.len(), 1),
        _ => panic!("the services are to be listed"),
    }
}

#[test]
fn connected_device_makes_way_for_another_one() {
    let handler = handler(Some(OTHER));
    let op = list(
        &handler,
        ADDRESS,
        vec![ListServicesEvent::Proceed, ListServicesEvent::DeviceConnected(false)],
    );
    assert!(matches!(op, ListServicesOp::DisconnectingOther(ref address, _) if address == ADDRESS));
    // that the other device could not be disconnected ends nothing
    for result in [Ok(()), Err(Error::NoDeviceConnected), Err(Error::DisconnectFailed)] {
        let op = list(
            &handler,
            ADDRESS,
            vec![
                ListServicesEvent::Proceed,
                ListServicesEvent::DeviceConnected(false),
                ListServicesEvent::Disconnected(result),
            ],
        );
        assert!(matches!(op, ListServicesOp::Connecting(ref address, _) if address == ADDRESS));
    }
}

#[test]
fn device_that_says_that_it_is_connected_is_only_read() {
    for handler in [handler(None), handler(Some(OTHER))] {
        let op = list(
            &handler,
            ADDRESS,
            vec![ListServicesEvent::Proceed, ListServicesEvent::DeviceConnected(true)],
        );
        assert!(matches!(op, ListServicesOp::Reading(ref device) if device.id == ADDRESS));
        let op = handler.discover_services(op, ListServicesEvent::Read(Ok(read())));
        assert!(matches!(op, ListServicesOp::Finished(Ok(_))));
    }
}

#[test]
fn services_of_an_unknown_device_are_not_listed() {
    for handler in [handler(None), handler(Some(OTHER))] {
        let op = list(&handler, "nowhere", vec![ListServicesEvent::Proceed]);
        assert!(matches!(
            op,
            ListServicesOp::Finished(Err(Error::UnknownPeripheral(ref a))) if a == "nowhere"
        ));
    }
}

#[test]
fn listing_fails_if_the_device_cannot_be_connected() {
    let op = list(
        &handler(None),
        ADDRESS,
        vec![
            ListServicesEvent::Proceed,
            ListServicesEvent::DeviceConnected(false),
            ListServicesEvent::Connected(Err(Error::ConnectionFailed)),
        ],
    );
    assert!(matches!(op, ListServicesOp::Finished(Err(Error::ConnectionFailed))));
}

#[test]
fn device_is_disconnected_again_even_if_it_could_not_be_read() {
    let handler = handler(None);
    let op = list(
        &handler,
        ADDRESS,
        vec![
            ListServicesEvent::Proceed,
            ListServicesEvent::DeviceConnected(false),
            ListServicesEvent::Connected(Ok(())),
            ListServicesEvent::Read(Err("unreadable".to_string())),
        ],
    );
    assert!(matches!(op, ListServicesOp::Disconnecting(Err(_))));
    let op = handler.discover_services(op, ListServicesEvent::Disconnected(Ok(())));
    assert!(matches!(
        op,
        ListServicesOp::Finished(Err(Error::Btleplug(ref text))) if text == "unreadable"
    ));
}

#[test]
fn answer_to_something_else_does_not_move_the_listing() {
    let op = list(&handler(None), ADDRESS, vec![ListServicesEvent::Disconnected(Ok(()))]);
    assert!(matches!(op, ListServicesOp::Requested(_)));
}

fn subscribe(handler: &mut Handler<Bench>, c: u128, task: u32) -> SubscribeOp<Bench> {
    let mut op = SubscribeOp::Requested { c, service: Some(SERVICE) };
    for event in
        [SubscribeEvent::Proceed, SubscribeEvent::Spawned(task), SubscribeEvent::Started(Ok(()))]
    {
        op = handler.subscribe(op, event);
    }
    op
}

#[test]
fn subscribing_keeps_the_listener() {
    let mut handler = handler(Some(ADDRESS));
    let op = SubscribeOp::Requested { c: CHARACTERISTIC, service: None };
    let op = handler.subscribe(op, SubscribeEvent::Proceed);
    assert!(matches!(
        op,
        SubscribeOp::Spawning { c: CHARACTERISTIC, ref charac } if **charac == 9
    ));
    let op = handler.subscribe(op, SubscribeEvent::Spawned(31));
    assert!(matches!(op, SubscribeOp::AwaitingStart { task: 31, .. }));
    assert!(handler.connection.as_ref().unwrap().notify_listeners.is_empty());
    let op = handler.subscribe(op, SubscribeEvent::Started(Ok(())));
    assert!(matches!(op, SubscribeOp::Finished(Ok(()))));
    assert_eq!(handler.connection.as_ref().unwrap().notify_listeners[&CHARACTERISTIC], vec![31]);
}

#[test]
fn unsubscribe_undoes_subscribe() {
    let mut handler = handler(Some(ADDRESS));
    handler.connection.as_mut().unwrap().add_listener(1, 30);
    assert!(matches!(subscribe(&mut handler, CHARACTERISTIC, 31), SubscribeOp::Finished(Ok(()))));
    assert_eq!(handler.connection.as_ref().unwrap().notify_listeners.len(), 2);
    assert_eq!(handler.unsubscribe(CHARACTERISTIC), Ok(vec![31]));
    let listeners = &handler.connection.as_ref().unwrap().notify_listeners;
    assert_eq!(listeners.len(), 1);
    assert_eq!(listeners[&1], vec![30]);
}

#[test]
fn every_subscription_listens_until_the_characteristic_is_unsubscribed() {
    let mut handler = handler(Some(ADDRESS));
    for task in [31, 32, 33] {
        let op = subscribe(&mut handler, CHARACTERISTIC, task);
        assert!(matches!(op, SubscribeOp::Finished(Ok(()))));
    }
    let listeners = &handler.connection.as_ref().unwrap().notify_listeners;
    assert_eq!(listeners[&CHARACTERISTIC], vec![31, 32, 33]);
    assert_eq!(handler.unsubscribe(CHARACTERISTIC), Ok(vec![31, 32, 33]));
    assert_eq!(handler.unsubscribe(CHARACTERISTIC), Ok(vec![]));
}

#[test]
fn subscribing_needs_the_characteristic() {
    let mut connected = handler(Some(ADDRESS));
    let op = SubscribeOp::Requested { c: 0x2a19, service: None };
    let op = connected.subscribe(op, SubscribeEvent::Proceed);
    assert!(matches!(
        op,
        SubscribeOp::Finished(Err(Error::CharacNotAvailable(ref text)))
            if text == "00000000-0000-0000-0000-000000002a19"
    ));
    let mut unconnected = handler(None);
    let op = SubscribeOp::Requested { c: CHARACTERISTIC, service: None };
    let op = unconnected.subscribe(op, SubscribeEvent::Proceed);
    assert!(matches!(op, SubscribeOp::Finished(Err(Error::NoDeviceConnected))));
}

#[test]
fn subscribing_fails_if_the_task_does_not_listen() {
    let mut handler = handler(Some(ADDRESS));
    let op = handler.subscribe(
        SubscribeOp::AwaitingStart { c: CHARACTERISTIC, task: 31 },
        SubscribeEvent::Started(Err(Error::Timeout("subscribe".to_string()))),
    );
    assert!(matches!(op, SubscribeOp::Finished(Err(Error::Timeout(_)))));
    assert!(handler.connection.as_ref().unwrap().notify_listeners.is_empty());
}

#[test]
fn subscribing_fails_if_the_device_disconnects_meanwhile() {
    let mut handler = handler(None);
    let op = handler.subscribe(
        SubscribeOp::AwaitingStart { c: CHARACTERISTIC, task: 31 },
        SubscribeEvent::Started(Ok(())),
    );
    assert!(matches!(op, SubscribeOp::Finished(Err(Error::NoDeviceConnected))));
}

#[test]
fn callback_runs_for_every_notification() {
    let mut task =
        subscribe_handler(ListenTask::Opening, ListenEvent::Opened(Timed::Finished(Ok(()))));
    assert!(matches!(task, ListenTask::Starting));
    task = subscribe_handler(task, ListenEvent::Told);
    let mut delivered = vec![];
    for item in [Ok(vec![1]), Err("torn".to_string()), Ok(vec![2, 3]), Ok(vec![])] {
        task = subscribe_handler(task, ListenEvent::Next(Some(item)));
        if let Some(data) = task.take_notification() {
            delivered.push(data);
            assert!(task.take_notification().is_none());
            task = subscribe_handler(task, ListenEvent::Called);
        }
        assert!(matches!(task, ListenTask::Listening));
    }
    assert_eq!(delivered, vec![vec![1], vec![2, 3], vec![]]);
    task = subscribe_handler(task, ListenEvent::Next(None));
    assert!(matches!(task, ListenTask::Ended));
}

#[test]
fn listening_that_cannot_start_is_refused() {
    let task = subscribe_handler(ListenTask::Opening, ListenEvent::Opened(Timed::Elapsed));
    assert!(matches!(task, ListenTask::Refused(Error::Timeout(ref c)) if c == "subscribe"));
    let task = subscribe_handler(
        ListenTask::Opening,
        ListenEvent::Opened(Timed::Finished(Err("no".to_string()))),
    );
    assert!(matches!(task, ListenTask::Refused(Error::Btleplug(ref text)) if text == "no"));
}

#[test]
fn notification_waits_for_the_callback() {
    let task = ListenTask::Calling(Some(vec![1]));
    let task = subscribe_handler(task, ListenEvent::Next(Some(Ok(vec![2]))));
    assert!(matches!(task, ListenTask::Calling(Some(ref data)) if *data == vec![1]));
}
