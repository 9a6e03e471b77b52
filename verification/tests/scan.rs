use tauri_plugin_blec::error::Error;
use tauri_plugin_blec::filter::ScanFilter;
use tauri_plugin_blec::handler::Handler;
use tauri_plugin_blec::models::{
    AdvertisementData, DeviceQuery, DeviceReply, DiscoveredDevice,
};
use tauri_plugin_blec::platform::Platform;
use tauri_plugin_blec::scan::{DiscoverEvent, DiscoverOp, DiscoverRequest, ScanEvent, ScanTask};
use tauri_plugin_blec::timeout::Timed;

use std::collections::HashMap;
use std::sync::Arc;

struct Bench;

impl Platform for Bench {
    type Adapter = ();
    type Device = ();
    type Charac = ();
    type Task = u32;
    type Sender = ();
    type SyncCallback = ();
    type AsyncCallback = ();
}

const BATTERY: u128 = 0x0000180f00001000800000805f9b34fb;

fn request(filter: ScanFilter, report: bool) -> DiscoverRequest {
    DiscoverRequest { timeout: 1000, filter, allow_ibeacons: true, report }
}

fn device(id: &str, services: Vec<u128>, rssi: i16) -> DiscoveredDevice<Bench> {
    DiscoveredDevice {
        id: id.to_string(),
        device: (),
        adv_data: AdvertisementData {
            local_name: None,
            manufacturer_data: None,
            services,
            service_data: HashMap::new(),
            tx_power_level: None,
        },
        rssi: Some(rssi),
    }
}

fn begin(handler: &mut Handler<Bench>, request: DiscoverRequest) -> ScanTask<Bench> {
    let task = handler.discover_handler(ScanTask::Opening(request), ScanEvent::Opened(Ok(())));
    assert_eq!(task.announcement(), None);
    let task = handler.discover_handler(task, ScanEvent::Told);
    assert_eq!(task.announcement(), Some(true));
    handler.discover_handler(task, ScanEvent::Announced)
}

/// Finds `device`, which answers that it is neither connected nor paired.
fn find(
    handler: &mut Handler<Bench>,
    task: ScanTask<Bench>,
    device: DiscoveredDevice<Bench>,
) -> ScanTask<Bench> {
    let mut task = task;
    for event in [
        ScanEvent::Elapsed(0),
        ScanEvent::Next(Timed::Finished(Some(device))),
        ScanEvent::Reply(DeviceReply::Connected(false)),
        ScanEvent::Reply(DeviceReply::Paired(Ok(false))),
    ] {
        task = handler.discover_handler(task, event);
    }
    task
}

#[test]
fn scan_is_started_step_by_step() {
    let mut handler: Handler<Bench> = Handler::new();
    let op = DiscoverOp::Requested(request(ScanFilter::Service(BATTERY), true));
    let op = handler.discover(op, DiscoverEvent::Proceed);
    assert!(matches!(op, DiscoverOp::StoppingScan(_)));
    assert!(!handler.allow_ibeacons);
    let op = handler.discover(op, DiscoverEvent::ScanStopped);
    assert!(matches!(op, DiscoverOp::OpeningAdapter(_)));
    assert!(handler.allow_ibeacons);
    let mut op = handler.discover(op, DiscoverEvent::AdapterReady(Ok(())));
    let handed = op.take_request().unwrap();
    assert_eq!(handed.timeout, 1000);
    assert!(matches!(handed.filter, ScanFilter::Service(BATTERY)));
    assert!(op.take_request().is_none());
    let op = handler.discover(op, DiscoverEvent::Spawned(5));
    assert!(matches!(op, DiscoverOp::AwaitingStart));
    assert_eq!(handler.scan_task, Some(5));
    let op = handler.discover(op, DiscoverEvent::Started(Ok(())));
    assert!(matches!(op, DiscoverOp::Finished(Ok(()))));
}

#[test]
fn invalid_filter_is_refused_and_the_running_scan_goes_on() {
    let mut handler: Handler<Bench> = Handler::new();
    handler.scan_task = Some(5);
    let filter = ScanFilter::ManufacturerDataMasked(1, vec![1, 2], vec![1]);
    let op = DiscoverOp::Requested(request(filter, true));
    let op = handler.discover(op, DiscoverEvent::Proceed);
    assert!(matches!(op, DiscoverOp::Finished(Err(Error::InvalidFilterMask))));
    assert_eq!(handler.scan_task, Some(5));
    assert!(!handler.allow_ibeacons);
}

#[test]
fn starting_a_scan_can_fail() {
    let mut handler: Handler<Bench> = Handler::new();
    let op = handler.discover(
        DiscoverOp::OpeningAdapter(request(ScanFilter::NoFilter, true)),
        DiscoverEvent::AdapterReady(Err(Error::Btleplug("no adapter".to_string()))),
    );
    assert!(matches!(op, DiscoverOp::Finished(Err(Error::Btleplug(ref t))) if t == "no adapter"));
    let op = handler.discover(
        DiscoverOp::AwaitingStart,
        DiscoverEvent::Started(Err(Error::Btleplug("off".to_string()))),
    );
    assert!(matches!(op, DiscoverOp::Finished(Err(Error::Btleplug(ref t))) if t == "off"));
    let op = handler.discover(DiscoverOp::AwaitingStart, DiscoverEvent::Proceed);
    assert!(matches!(op, DiscoverOp::AwaitingStart));
}

#[test]
fn scan_that_cannot_start_is_refused() {
    let mut handler: Handler<Bench> = Handler::new();
    handler.known_devices.insert("old".to_string(), Arc::new(device("old", vec![], 0)));
    let task = handler.discover_handler(
        ScanTask::Opening(request(ScanFilter::NoFilter, true)),
        ScanEvent::Opened(Err("off".to_string())),
    );
    assert!(matches!(task, ScanTask::Refused(Error::Btleplug(ref text)) if text == "off"));
    assert!(handler.lookup_device("old").is_ok());
}

#[test]
fn new_scan_forgets_the_devices_of_the_last_one() {
    let mut handler: Handler<Bench> = Handler::new();
    handler.known_devices.insert("old".to_string(), Arc::new(device("old", vec![], 0)));
    let task = begin(&mut handler, request(ScanFilter::NoFilter, true));
    assert!(matches!(task, ScanTask::Timing(_)));
    assert!(handler.known_devices.is_empty());
}

#[test]
fn device_that_is_found_is_known_and_reported() {
    let mut handler: Handler<Bench> = Handler::new();
    let task = begin(&mut handler, request(ScanFilter::NoFilter, true));
    let mut task = find(&mut handler, task, device("AA", vec![], -50));
    let report = task.take_report().unwrap();
    assert_eq!(report.address, "AA");
    assert_eq!(report.rssi, Some(-50));
    assert!(task.take_report().is_none());
    assert_eq!(handler.lookup_device("AA").ok().unwrap().rssi, Some(-50));
    let task = handler.discover_handler(task, ScanEvent::Reported);
    assert!(matches!(task, ScanTask::Timing(_)));
}

#[test]
fn newest_advertisement_counts() {
    let mut handler: Handler<Bench> = Handler::new();
    let task = begin(&mut handler, request(ScanFilter::NoFilter, false));
    let task = find(&mut handler, task, device("AA", vec![], -50));
    assert!(matches!(task, ScanTask::Timing(_)));
    find(&mut handler, task, device("AA", vec![BATTERY], -60));
    let known = handler.lookup_device("AA").ok().unwrap();
    assert_eq!(known.rssi, Some(-60));
    assert_eq!(known.adv_data.services, vec![BATTERY]);
}

#[test]
fn only_devices_that_match_the_filter_are_found() {
    let mut handler: Handler<Bench> = Handler::new();
    let task = begin(&mut handler, request(ScanFilter::Service(BATTERY), true));
    let mut task = find(&mut handler, task, device("AA", vec![], -50));
    assert!(task.take_report().is_none());
    assert!(matches!(task, ScanTask::Timing(_)));
    assert!(handler.lookup_device("AA").is_err());
    let mut task = find(&mut handler, task, device("BB", vec![BATTERY], -50));
    assert_eq!(task.take_report().unwrap().address, "BB");
    assert_eq!(handler.lookup_device("BB").ok().unwrap().id, "BB");
}

#[test]
fn device_that_does_not_answer_is_skipped() {
    let mut handler: Handler<Bench> = Handler::new();
    let mut task = begin(&mut handler, request(ScanFilter::NoFilter, true));
    for event in [
        ScanEvent::Elapsed(0),
        ScanEvent::Next(Timed::Finished(Some(device("AA", vec![], -50)))),
        ScanEvent::Reply(DeviceReply::Connected(true)),
    ] {
        task = handler.discover_handler(task, event);
    }
    assert!(matches!(task, ScanTask::Inspecting(_, _, DeviceQuery::Rssi)));
    for reply in [DeviceReply::Rssi(Ok(-40)), DeviceReply::Paired(Err("gone".to_string()))] {
        task = handler.discover_handler(task, ScanEvent::Reply(reply));
    }
    assert!(matches!(task, ScanTask::Timing(_)));
    assert!(handler.lookup_device("AA").is_err());
}

#[test]
fn scan_waits_for_what_is_left_of_its_time() {
    let mut handler: Handler<Bench> = Handler::new();
    for (elapsed, left) in [
        (0, 1_000_000_000),
        (1, 999_999_999),
        (400_000_000, 600_000_000),
        (1_000_000_000, 0),
        (1_000_000_001, 0),
        (u128::MAX, 0),
    ] {
        let task = handler.discover_handler(
            ScanTask::Timing(request(ScanFilter::NoFilter, true)),
            ScanEvent::Elapsed(elapsed),
        );
        assert!(matches!(task, ScanTask::Scanning(_, within) if within == left));
    }
    let longest = DiscoverRequest {
        timeout: u64::MAX,
        filter: ScanFilter::NoFilter,
        allow_ibeacons: false,
        report: false,
    };
    let task = handler.discover_handler(ScanTask::Timing(longest), ScanEvent::Elapsed(0));
    assert!(matches!(task, ScanTask::Scanning(_, 18_446_744_073_709_551_615_000_000)));
}

#[test]
fn scan_ends_when_its_time_is_up_or_nothing_more_comes() {
    for item in [Timed::Elapsed, Timed::Finished(None)] {
        let mut handler: Handler<Bench> = Handler::new();
        let task = begin(&mut handler, request(ScanFilter::NoFilter, true));
        let task = handler.discover_handler(task, ScanEvent::Elapsed(0));
        let task = handler.discover_handler(task, ScanEvent::Next(item));
        assert!(matches!(task, ScanTask::Closing));
        assert_eq!(task.announcement(), Some(false));
        let task = handler.discover_handler(task, ScanEvent::Announced);
        assert!(matches!(task, ScanTask::Ended));
        let task = handler.discover_handler(task, ScanEvent::Announced);
        assert!(matches!(task, ScanTask::Ended));
    }
}

#[test]
fn scan_knows_and_reports_what_it_found() {
    let mut handler: Handler<Bench> = Handler::new();
    let mut task = begin(&mut handler, request(ScanFilter::Service(BATTERY), true));
    let mut reported = vec![];
    for (id, services, rssi) in [
        ("AA", vec![BATTERY], -50),
        ("BB", vec![], -51),
        ("CC", vec![BATTERY], -52),
        ("AA", vec![BATTERY], -53),
    ] {
        task = find(&mut handler, task, device(id, services, rssi));
        if let Some(shown) = task.take_report() {
            reported.push((shown.address, shown.rssi));
            task = handler.discover_handler(task, ScanEvent::Reported);
        }
    }
    assert_eq!(
        reported,
        vec![
            ("AA".to_string(), Some(-50)),
            ("CC".to_string(), Some(-52)),
            ("AA".to_string(), Some(-53)),
        ]
    );
    assert_eq!(handler.known_devices.len(), 2);
    assert_eq!(handler.lookup_device("AA").ok().unwrap().rssi, Some(-53));
    assert_eq!(handler.lookup_device("CC").ok().unwrap().rssi, Some(-52));
}

#[test]
fn latest_scan_is_kept_until_it_is_stopped() {
    let mut handler: Handler<Bench> = Handler::new();
    assert!(!handler.is_scanning(|_| false));
    for task in [5, 6] {
        handler.discover(DiscoverOp::Spawning(None), DiscoverEvent::Spawned(task));
        assert!(handler.is_scanning(|t| *t != task));
        assert!(!handler.is_scanning(|t| *t == task));
    }
    begin(&mut handler, request(ScanFilter::NoFilter, true));
    assert_eq!(handler.scan_task, Some(6));
    assert_eq!(handler.stop_scan().unwrap().task, 6);
    assert!(!handler.is_scanning(|_| false));
}

#[test]
fn scanning_touches_only_the_known_devices() {
    let mut handler: Handler<Bench> = Handler::new();
    handler.scan_task = Some(5);
    handler.connected = true;
    let task = begin(&mut handler, request(ScanFilter::NoFilter, true));
    find(&mut handler, task, device("AA", vec![], -50));
    assert_eq!(handler.scan_task, Some(5));
    assert!(handler.is_connected());
    assert!(handler.connection.is_none());
    assert!(!handler.allow_ibeacons);
}

#[test]
fn starting_a_scan_keeps_the_known_devices() {
    let mut handler: Handler<Bench> = Handler::new();
    handler.known_devices.insert("old".to_string(), Arc::new(device("old", vec![], 0)));
    let mut op = DiscoverOp::Requested(request(ScanFilter::NoFilter, true));
    for event in [
        DiscoverEvent::Proceed,
        DiscoverEvent::ScanStopped,
        DiscoverEvent::AdapterReady(Ok(())),
        DiscoverEvent::Spawned(5),
        DiscoverEvent::Started(Ok(())),
    ] {
        op = handler.discover(op, event);
    }
    assert!(matches!(op, DiscoverOp::Finished(Ok(()))));
    assert!(handler.lookup_device("old").is_ok());
}
