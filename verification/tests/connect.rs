use tauri_plugin_blec::connect::{
    Attempt, AttemptEvent, ConnectEvent, ConnectOp, ConnectRequest, CONNECT_SCAN_MILLIS,
    MAX_ATTEMPTS, RETRY_PAUSE_SECS,
};
use tauri_plugin_blec::connection::{KnownCharac, ServiceListing};
use tauri_plugin_blec::disconnect::{
    connection_event_handler, ConnectionEvent, DisconnectEvent, DisconnectOp, DisconnectedEvent,
    DisconnectedOp, EventTask, EventTaskEvent,
};
use tauri_plugin_blec::error::Error;
use tauri_plugin_blec::event_handlers::OnDisconnectHandler;
use tauri_plugin_blec::filter::ScanFilter;
use tauri_plugin_blec::handler::Handler;
use tauri_plugin_blec::models::{AdvertisementData, DiscoveredDevice, ServiceRead};
use tauri_plugin_blec::platform::Platform;
use tauri_plugin_blec::timeout::Timed;

use std::collections::HashMap;
use std::sync::Arc;

struct Bench;

impl Platform for Bench {
    type Adapter = ();
    type Device = ();
    type Charac = u32;
    type Task = u32;
    type Sender = ();
    type SyncCallback = &'static str;
    type AsyncCallback = &'static str;
}

const ADDRESS: &str = "00:11:22:33:44:55";
const OTHER: &str = "00:11:22:33:44:56";

fn device(address: &str) -> Arc<DiscoveredDevice<Bench>> {
    Arc::new(DiscoveredDevice {
        id: address.to_string(),
        device: (),
        adv_data: AdvertisementData {
            local_name: None,
            manufacturer_data: None,
            services: vec![],
            service_data: HashMap::new(),
            tx_power_level: None,
        },
        rssi: None,
    })
}

fn request(address: &str, callback: &'static str) -> ConnectOp<Bench> {
    ConnectOp::Requested(ConnectRequest {
        address: address.to_string(),
        on_disconnect: OnDisconnectHandler::from_sync(callback),
        allow_ibeacons: false,
    })
}

fn listing(handle: u32) -> ServiceListing<Bench> {
    ServiceListing {
        services: vec![ServiceRead { uuid: 0x180f, characteristics: vec![] }],
        characs: vec![vec![KnownCharac { uuid: 0x2a19, handle: Arc::new(handle) }]],
    }
}

fn knowing_both() -> Handler<Bench> {
    let mut handler = Handler::new();
    handler.known_devices.insert(ADDRESS.to_string(), device(ADDRESS));
    handler.known_devices.insert(OTHER.to_string(), device(OTHER));
    handler
}

/// Performs steps that send nothing to the watchers.
fn go(
    handler: &mut Handler<Bench>,
    op: ConnectOp<Bench>,
    events: Vec<ConnectEvent<Bench>>,
) -> ConnectOp<Bench> {
    let mut op = op;
    for event in events {
        let (next, send) = handler.connect(op, event);
        assert_eq!(send, None);
        op = next;
    }
    op
}

fn attempting(handler: &mut Handler<Bench>, address: &str, task: u32) -> ConnectOp<Bench> {
    go(
        handler,
        request(address, "callback"),
        vec![
            ConnectEvent::Proceed,
            ConnectEvent::ScanStopped,
            ConnectEvent::DeviceConnected(false),
            ConnectEvent::Watching(task),
        ],
    )
}

/// Connects `address`, which answers the attempt that it is connected, and follows it with `task`.
fn connect(handler: &mut Handler<Bench>, address: &str, task: u32) -> ConnectOp<Bench> {
    let op = attempting(handler, address, task);
    let answer = ConnectEvent::Attempt(AttemptEvent::DeviceConnected(true));
    let (op, send) = handler.connect(op, answer);
    assert_eq!(send, Some(true));
    go(
        handler,
        op,
        vec![
            ConnectEvent::ServicesRead(Ok(listing(1))),
            ConnectEvent::ServicesDiscovered(Timed::Finished(Ok(()))),
            ConnectEvent::ServicesRead(Ok(listing(2))),
        ],
    )
}

#[test]
fn limits_of_connecting() {
    assert_eq!(MAX_ATTEMPTS, 3);
    assert_eq!(RETRY_PAUSE_SECS, 1);
    assert_eq!(CONNECT_SCAN_MILLIS, 1000);
}

#[test]
fn connecting_puts_the_connection_in_place() {
    let mut handler = knowing_both();
    let op = connect(&mut handler, ADDRESS, 7);
    assert!(matches!(op, ConnectOp::Announcing(None)));
    assert_eq!(op.announcement(), Some(true));
    assert!(handler.is_connected());
    let conn = handler.connection.as_ref().unwrap();
    assert_eq!(conn.connected_dev.id, ADDRESS);
    assert_eq!(conn.device_event_handle, Some(7));
    assert!(matches!(conn.on_disconnect, OnDisconnectHandler::Sync("callback")));
    assert!(conn.notify_listeners.is_empty());
    // the services are those that were read after the discovery
    assert_eq!(handler.require_charac(0x2a19, None), Ok(Arc::new(2)));
    let op = go(&mut handler, op, vec![ConnectEvent::Announced]);
    assert!(matches!(op, ConnectOp::Finished(Ok(()))));
    assert_eq!(op.announcement(), None);
}

#[test]
fn new_connection_replaces_the_old_one() {
    let mut handler = knowing_both();
    connect(&mut handler, ADDRESS, 7);
    let op = connect(&mut handler, OTHER, 8);
    match op {
        ConnectOp::Announcing(Some(replaced)) => {
            assert_eq!(replaced.connected_dev.id, ADDRESS);
            assert_eq!(replaced.close(), vec![7]);
        }
        _ => panic!("the old connection is to be ended"),
    }
    assert!(handler.is_connected_to(OTHER));
}

#[test]
fn connected_device_is_refused() {
    let mut handler = knowing_both();
    connect(&mut handler, ADDRESS, 7);
    let again = || {
        vec![
            ConnectEvent::Proceed,
            ConnectEvent::ScanStopped,
            ConnectEvent::DeviceConnected(true),
        ]
    };
    let op = go(&mut handler, request(ADDRESS, "again"), again());
    assert!(matches!(op, ConnectOp::Finished(Err(Error::AlreadyConnected))));
    let conn = handler.connection.as_ref().unwrap();
    assert!(matches!(conn.on_disconnect, OnDisconnectHandler::Sync("callback")));
    // a device that is connected is refused although there is no connection to it
    let op = go(&mut handler, request(OTHER, "other"), again());
    assert!(matches!(op, ConnectOp::Finished(Err(Error::AlreadyConnected))));
    assert!(handler.is_connected_to(ADDRESS));
}

#[test]
fn device_that_is_not_connected_any_more_is_connected_again() {
    let mut handler = knowing_both();
    connect(&mut handler, ADDRESS, 7);
    let op = connect(&mut handler, ADDRESS, 8);
    match op {
        ConnectOp::Announcing(Some(replaced)) => assert_eq!(replaced.close(), vec![7]),
        _ => panic!("the old connection is to be ended"),
    }
    assert_eq!(handler.connection.as_ref().unwrap().device_event_handle, Some(8));
}

#[test]
fn address_that_is_not_known_any_more_is_unknown() {
    let mut handler = knowing_both();
    connect(&mut handler, ADDRESS, 7);
    handler.known_devices.clear();
    handler.known_devices.insert(OTHER.to_string(), device(OTHER));
    let op = go(
        &mut handler,
        request(ADDRESS, "again"),
        vec![ConnectEvent::Proceed, ConnectEvent::ScanStopped],
    );
    assert!(matches!(
        op,
        ConnectOp::Finished(Err(Error::UnknownPeripheral(ref address))) if address == ADDRESS
    ));
    assert!(handler.is_connected_to(ADDRESS));
}

#[test]
fn connect_event_completes_the_attempt() {
    let mut handler = knowing_both();
    let op = attempting(&mut handler, ADDRESS, 7);
    assert!(handler.is_connecting_to(ADDRESS));
    let op = go(
        &mut handler,
        op,
        vec![
            ConnectEvent::Attempt(AttemptEvent::DeviceConnected(false)),
            ConnectEvent::Attempt(AttemptEvent::Connected(Timed::Finished(Ok(())))),
        ],
    );
    assert!(matches!(op, ConnectOp::Attempting { attempt: Attempt::AwaitingEvent, .. }));
    let (_, send) = handler.handle_event(ConnectionEvent::Connected, OTHER);
    assert_eq!(send, None);
    let (disconnected, send) = handler.handle_event(ConnectionEvent::Connected, ADDRESS);
    assert!(disconnected.is_none());
    assert_eq!(send, Some(true));
    let op = go(&mut handler, op, vec![ConnectEvent::Attempt(AttemptEvent::StatusSent)]);
    assert!(matches!(op, ConnectOp::Reading(_)));
    assert!(handler.connecting.is_none());
}

#[test]
fn disconnect_event_is_yet_to_be_handled() {
    let mut handler = knowing_both();
    connect(&mut handler, ADDRESS, 7);
    let (disconnected, send) = handler.handle_event(ConnectionEvent::Disconnected, ADDRESS);
    assert!(matches!(disconnected, Some(DisconnectedOp::Received(ref id)) if id == ADDRESS));
    assert_eq!(send, None);
    assert!(handler.is_connected());
}

#[test]
fn scan_is_started_if_no_device_is_known() {
    let mut handler: Handler<Bench> = Handler::new();
    let op = go(&mut handler, request(ADDRESS, "callback"), vec![ConnectEvent::Proceed]);
    let ConnectOp::Discovering(ref asked) = op else { panic!("a scan is to be started") };
    let scan = asked.scan();
    assert_eq!(scan.timeout, 1000);
    assert!(matches!(scan.filter, ScanFilter::NoFilter));
    assert!(!scan.allow_ibeacons);
    assert!(!scan.report);
    handler.known_devices.insert(ADDRESS.to_string(), device(ADDRESS));
    let op = go(
        &mut handler,
        op,
        vec![ConnectEvent::Discovered(Ok(())), ConnectEvent::ScanStopped],
    );
    assert!(matches!(op, ConnectOp::Checking(_, ref found) if found.id == ADDRESS));
    let op = go(&mut handler, op, vec![ConnectEvent::DeviceConnected(false)]);
    assert!(matches!(op, ConnectOp::Watching(_, ref found) if found.id == ADDRESS));
}

#[test]
fn scan_for_connecting_looks_for_ibeacons_if_allowed() {
    let request: ConnectRequest<Bench> = ConnectRequest {
        address: ADDRESS.to_string(),
        on_disconnect: OnDisconnectHandler::NoHandler,
        allow_ibeacons: true,
    };
    assert!(request.scan().allow_ibeacons);
}

#[test]
fn failed_scan_ends_connecting() {
    let mut handler: Handler<Bench> = Handler::new();
    let op = go(
        &mut handler,
        request(ADDRESS, "callback"),
        vec![
            ConnectEvent::Proceed,
            ConnectEvent::Discovered(Err(Error::Btleplug("off".to_string()))),
        ],
    );
    assert!(matches!(op, ConnectOp::Finished(Err(Error::Btleplug(ref text))) if text == "off"));
}

#[test]
fn unknown_device_cannot_be_connected() {
    let mut handler = knowing_both();
    let op = go(
        &mut handler,
        request("nowhere", "callback"),
        vec![ConnectEvent::Proceed, ConnectEvent::ScanStopped],
    );
    assert!(matches!(
        op,
        ConnectOp::Finished(Err(Error::UnknownPeripheral(ref address))) if address == "nowhere"
    ));
    assert!(handler.connection.is_none());
}

#[test]
fn connecting_gives_up_after_three_attempts() {
    let mut handler = knowing_both();
    let mut op = attempting(&mut handler, ADDRESS, 7);
    for number in 0..3 {
        op = go(
            &mut handler,
            op,
            vec![ConnectEvent::Attempt(AttemptEvent::DeviceConnected(false))],
        );
        let failure = Timed::Finished(Err(format!("failure {number}")));
        let (next, send) =
            handler.connect(op, ConnectEvent::Attempt(AttemptEvent::Connected(failure)));
        if number < 2 {
            assert_eq!(send, None);
            assert!(matches!(next, ConnectOp::Pausing { number: n, .. } if n == number));
            op = go(&mut handler, next, vec![ConnectEvent::Paused]);
        } else {
            assert_eq!(send, Some(false));
            op = next;
        }
    }
    assert!(matches!(
        op,
        ConnectOp::Finished(Err(Error::Btleplug(ref text))) if text == "failure 2"
    ));
    assert!(!handler.is_connected());
    assert!(handler.connection.is_none());
    assert!(handler.connecting.is_none());
}

#[test]
fn later_attempt_may_succeed() {
    let mut handler = knowing_both();
    let op = attempting(&mut handler, ADDRESS, 7);
    let op = go(
        &mut handler,
        op,
        vec![
            ConnectEvent::Attempt(AttemptEvent::DeviceConnected(false)),
            ConnectEvent::Attempt(AttemptEvent::Connected(Timed::Elapsed)),
            ConnectEvent::Paused,
            ConnectEvent::Attempt(AttemptEvent::DeviceConnected(false)),
            ConnectEvent::Attempt(AttemptEvent::Connected(Timed::Finished(Ok(())))),
        ],
    );
    assert!(matches!(
        op,
        ConnectOp::Attempting { number: 1, attempt: Attempt::AwaitingEvent, .. }
    ));
    handler.connected = true;
    let op = go(&mut handler, op, vec![ConnectEvent::Attempt(AttemptEvent::StatusSent)]);
    assert!(matches!(op, ConnectOp::Reading(_)));
}

#[test]
fn failed_connecting_keeps_the_old_connection() {
    let mut handler = knowing_both();
    connect(&mut handler, ADDRESS, 7);
    let op = attempting(&mut handler, OTHER, 8);
    let (op, _) =
        handler.connect(op, ConnectEvent::Attempt(AttemptEvent::DeviceConnected(true)));
    let op = go(
        &mut handler,
        op,
        vec![ConnectEvent::ServicesRead(Err("unreadable".to_string()))],
    );
    assert!(matches!(
        op,
        ConnectOp::Finished(Err(Error::Btleplug(ref text))) if text == "unreadable"
    ));
    assert!(handler.is_connected_to(ADDRESS));
}

#[test]
fn service_discovery_must_succeed() {
    for (outcome, expected) in [
        (Timed::Elapsed, Error::Timeout("discover services".to_string())),
        (Timed::Finished(Err("gone".to_string())), Error::Btleplug("gone".to_string())),
    ] {
        let mut handler = knowing_both();
        let op = attempting(&mut handler, ADDRESS, 7);
        let (op, _) =
            handler.connect(op, ConnectEvent::Attempt(AttemptEvent::DeviceConnected(true)));
        let op = go(
            &mut handler,
            op,
            vec![
                ConnectEvent::ServicesRead(Ok(listing(1))),
                ConnectEvent::ServicesDiscovered(outcome),
            ],
        );
        match op {
            ConnectOp::Finished(Err(error)) => assert_eq!(error, expected),
            _ => panic!("connecting is to fail"),
        }
        assert!(handler.connection.is_none());
    }
}

#[test]
fn services_must_be_readable_after_the_discovery() {
    let mut handler = knowing_both();
    let op = attempting(&mut handler, ADDRESS, 7);
    let (op, _) = handler.connect(op, ConnectEvent::Attempt(AttemptEvent::DeviceConnected(true)));
    let op = go(
        &mut handler,
        op,
        vec![
            ConnectEvent::ServicesRead(Ok(listing(1))),
            ConnectEvent::ServicesDiscovered(Timed::Finished(Ok(()))),
            ConnectEvent::ServicesRead(Err("late".to_string())),
        ],
    );
    assert!(matches!(op, ConnectOp::Finished(Err(Error::Btleplug(ref text))) if text == "late"));
    assert!(handler.connection.is_none());
}

#[test]
fn attempt_on_a_connected_device_succeeds_at_once() {
    let mut handler: Handler<Bench> = Handler::new();
    let (attempt, send) =
        handler.connect_internal(Attempt::Checking, AttemptEvent::DeviceConnected(true));
    assert!(matches!(attempt, Attempt::Finished(Ok(()))));
    assert_eq!(send, Some(true));
    assert!(handler.is_connected());
}

#[test]
fn attempt_needs_no_event_if_the_status_is_connected() {
    let mut handler: Handler<Bench> = Handler::new();
    handler.connected = true;
    let (attempt, send) = handler.connect_internal(
        Attempt::Connecting,
        AttemptEvent::Connected(Timed::Finished(Ok(()))),
    );
    assert!(matches!(attempt, Attempt::Finished(Ok(()))));
    assert_eq!(send, None);
}

#[test]
fn attempt_fails_if_the_status_stays_unconnected() {
    let mut handler: Handler<Bench> = Handler::new();
    let (attempt, send) =
        handler.connect_internal(Attempt::AwaitingEvent, AttemptEvent::StatusSent);
    assert!(matches!(attempt, Attempt::Finished(Err(Error::ConnectionFailed))));
    assert_eq!(send, None);
}

#[test]
fn attempt_fails_with_the_error_of_the_adapter() {
    let mut handler: Handler<Bench> = Handler::new();
    let (attempt, _) = handler.connect_internal(
        Attempt::Connecting,
        AttemptEvent::AdapterFailed(Error::Btleplug("no adapter".to_string())),
    );
    assert!(matches!(
        attempt,
        Attempt::Finished(Err(Error::Btleplug(ref text))) if text == "no adapter"
    ));
    let (attempt, _) =
        handler.connect_internal(Attempt::Connecting, AttemptEvent::Connected(Timed::Elapsed));
    assert!(matches!(
        attempt,
        Attempt::Finished(Err(Error::Timeout(ref command))) if command == "Connect"
    ));
}

#[test]
fn event_that_answers_something_else_changes_nothing() {
    let mut handler = knowing_both();
    let op = go(&mut handler, request(ADDRESS, "callback"), vec![ConnectEvent::Paused]);
    assert!(matches!(op, ConnectOp::Requested(_)));
    let (attempt, send) = handler.connect_internal(Attempt::Checking, AttemptEvent::StatusSent);
    assert!(matches!(attempt, Attempt::Checking));
    assert_eq!(send, None);
}

#[test]
fn locks_of_connecting() {
    let mut handler = knowing_both();
    let op = request(ADDRESS, "callback");
    assert!(!op.needs_connection_lock() && !op.needs_command_lock());
    let op = go(&mut handler, op, vec![ConnectEvent::Proceed, ConnectEvent::ScanStopped]);
    assert!(op.needs_connection_lock() && !op.needs_command_lock());
    let op = go(
        &mut handler,
        op,
        vec![
            ConnectEvent::DeviceConnected(false),
            ConnectEvent::Watching(7),
            ConnectEvent::Attempt(AttemptEvent::DeviceConnected(false)),
        ],
    );
    assert!(op.needs_connection_lock() && op.needs_command_lock());
    let done: ConnectOp<Bench> = ConnectOp::Finished(Ok(()));
    assert!(!done.needs_connection_lock() && !done.needs_command_lock());
}

#[test]
fn disconnecting_waits_for_the_event() {
    let mut handler = knowing_both();
    connect(&mut handler, ADDRESS, 7);
    let op = handler.disconnect(DisconnectOp::Requested, DisconnectEvent::Proceed);
    assert!(matches!(op, DisconnectOp::Checking(ref device) if device.id == ADDRESS));
    assert!(op.needs_connection_lock());
    let op = handler.disconnect(op, DisconnectEvent::DeviceConnected(true));
    assert!(matches!(op, DisconnectOp::Disconnecting(ref device) if device.id == ADDRESS));
    let op = handler.disconnect(op, DisconnectEvent::Disconnected(Ok(())));
    assert!(matches!(op, DisconnectOp::AwaitingEvent));
    // meanwhile the event arrives
    let (event, _) = handler.handle_disconnect(
        DisconnectedOp::Received(ADDRESS.to_string()),
        DisconnectedEvent::Proceed,
    );
    let (event, _) = handler.handle_disconnect(event, DisconnectedEvent::CallbackRun);
    let (_, send) = handler.handle_disconnect(event, DisconnectedEvent::Announced);
    assert_eq!(send, Some(false));
    let op = handler.disconnect(op, DisconnectEvent::StatusSent);
    assert!(matches!(op, DisconnectOp::Finished(Ok(()))));
    assert!(!op.needs_connection_lock());
    assert!(!handler.is_connected());
    assert!(matches!(handler.connected_device(), Err(Error::NoDeviceConnected)));
}

#[test]
fn disconnecting_needs_a_connected_device() {
    let handler = knowing_both();
    let op = handler.disconnect(DisconnectOp::Requested, DisconnectEvent::Proceed);
    assert!(matches!(op, DisconnectOp::Finished(Err(Error::NoDeviceConnected))));
    let mut handler = knowing_both();
    connect(&mut handler, ADDRESS, 7);
    let op = handler.disconnect(DisconnectOp::Requested, DisconnectEvent::Proceed);
    let op = handler.disconnect(op, DisconnectEvent::DeviceConnected(false));
    assert!(matches!(op, DisconnectOp::Finished(Err(Error::NoDeviceConnected))));
}

#[test]
fn disconnecting_can_fail() {
    let mut handler = knowing_both();
    connect(&mut handler, ADDRESS, 7);
    let op = handler.disconnect(
        DisconnectOp::Disconnecting(device(ADDRESS)),
        DisconnectEvent::Disconnected(Err("busy".to_string())),
    );
    assert!(matches!(op, DisconnectOp::Finished(Err(Error::Btleplug(ref t))) if t == "busy"));
    let op = handler.disconnect(
        DisconnectOp::Disconnecting(device(ADDRESS)),
        DisconnectEvent::AdapterFailed(Error::Btleplug("no adapter".to_string())),
    );
    assert!(matches!(op, DisconnectOp::Finished(Err(Error::Btleplug(ref t))) if t == "no adapter"));
    let op = handler.disconnect(DisconnectOp::AwaitingEvent, DisconnectEvent::StatusSent);
    assert!(matches!(op, DisconnectOp::Finished(Err(Error::DisconnectFailed))));
    let op = handler.disconnect(DisconnectOp::AwaitingEvent, DisconnectEvent::Proceed);
    assert!(matches!(op, DisconnectOp::AwaitingEvent));
}

#[test]
fn disconnect_event_undoes_the_connection() {
    let mut handler = knowing_both();
    connect(&mut handler, ADDRESS, 7);
    let (mut op, send) = handler.handle_disconnect(
        DisconnectedOp::Received(ADDRESS.to_string()),
        DisconnectedEvent::Proceed,
    );
    assert_eq!(send, None);
    assert!(handler.connection.is_none());
    assert!(handler.is_connected());
    assert!(matches!(op.take_callback(), OnDisconnectHandler::Sync("callback")));
    assert!(matches!(op.take_callback(), OnDisconnectHandler::NoHandler));
    assert_eq!(op.announcement(), None);
    let (mut op, send) = handler.handle_disconnect(op, DisconnectedEvent::CallbackRun);
    assert_eq!(op.announcement(), Some(false));
    assert_eq!(send, None);
    assert!(matches!(op.take_callback(), OnDisconnectHandler::NoHandler));
    let (op, send) = handler.handle_disconnect(op, DisconnectedEvent::Announced);
    assert_eq!(send, Some(false));
    assert!(!handler.is_connected());
    match op {
        DisconnectedOp::Finished(Some(conn)) => assert_eq!(conn.close(), vec![7]),
        _ => panic!("the connection is to be handed out"),
    }
    assert!(handler.lookup_device(ADDRESS).is_ok());
}

#[test]
fn disconnect_event_of_another_device_is_ignored() {
    let mut handler = knowing_both();
    connect(&mut handler, ADDRESS, 7);
    let (op, send) = handler.handle_disconnect(
        DisconnectedOp::Received(OTHER.to_string()),
        DisconnectedEvent::Proceed,
    );
    assert!(matches!(op, DisconnectedOp::Finished(None)));
    assert_eq!(send, None);
    assert!(handler.is_connected_to(ADDRESS));
    assert!(handler.is_connected());
}

#[test]
fn second_disconnect_event_is_ignored() {
    let mut handler = knowing_both();
    connect(&mut handler, ADDRESS, 7);
    for expected in [true, false] {
        let (op, _) = handler.handle_disconnect(
            DisconnectedOp::Received(ADDRESS.to_string()),
            DisconnectedEvent::Proceed,
        );
        assert_eq!(matches!(op, DisconnectedOp::RunningCallback(_)), expected);
        assert_eq!(matches!(op, DisconnectedOp::Finished(None)), !expected);
    }
}

#[test]
fn every_connection_event_is_handled() {
    let task = connection_event_handler(EventTask::Opening, EventTaskEvent::Opened(Ok(())));
    assert!(matches!(task, EventTask::Listening));
    let task = connection_event_handler(
        task,
        EventTaskEvent::Next(Some(ConnectionEvent::Connected)),
    );
    assert!(matches!(task, EventTask::Handling(ConnectionEvent::Connected)));
    // the next event has to wait
    let task = connection_event_handler(
        task,
        EventTaskEvent::Next(Some(ConnectionEvent::Disconnected)),
    );
    assert!(matches!(task, EventTask::Handling(ConnectionEvent::Connected)));
    let task = connection_event_handler(task, EventTaskEvent::Handled);
    let task = connection_event_handler(
        task,
        EventTaskEvent::Next(Some(ConnectionEvent::Disconnected)),
    );
    assert!(matches!(task, EventTask::Handling(ConnectionEvent::Disconnected)));
    let task = connection_event_handler(task, EventTaskEvent::Handled);
    let task = connection_event_handler(task, EventTaskEvent::Next(None));
    assert!(matches!(task, EventTask::Ended));
}

#[test]
fn connection_events_that_cannot_be_followed_end_the_task() {
    let task = connection_event_handler(
        EventTask::Opening,
        EventTaskEvent::Opened(Err("unsupported".to_string())),
    );
    assert!(matches!(task, EventTask::Ended));
}
