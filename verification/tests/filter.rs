use tauri_plugin_blec::error::Error;
use tauri_plugin_blec::filter::{check_filter, filter_device, ScanFilter};
use tauri_plugin_blec::models::{AdvertisementData, DiscoveredDevice, ManufacturerData};
use tauri_plugin_blec::platform::Platform;

use std::collections::HashMap;

struct Bench;

impl Platform for Bench {
    type Adapter = ();
    type Device = ();
    type Charac = ();
    type Task = ();
    type Sender = ();
    type SyncCallback = ();
    type AsyncCallback = ();
}

const BATTERY: u128 = 0x0000180f00001000800000805f9b34fb;
const HEART_RATE: u128 = 0x0000180d00001000800000805f9b34fb;
const THERMOMETER: u128 = 0x0000180900001000800000805f9b34fb;

fn advertising(services: Vec<u128>, data: Option<(u16, Vec<u8>)>) -> DiscoveredDevice<Bench> {
    DiscoveredDevice {
        id: "00:11:22:33:44:55".to_string(),
        device: (),
        adv_data: AdvertisementData {
            local_name: None,
            manufacturer_data: data.map(|(company_id, data)| ManufacturerData { company_id, data }),
            services,
            service_data: HashMap::new(),
            tx_power_level: None,
        },
        rssi: None,
    }
}

fn with_services(services: Vec<u128>, filter: ScanFilter) -> bool {
    filter_device(&advertising(services, None), &filter)
}

fn with_data(company_id: u16, data: Vec<u8>, filter: ScanFilter) -> bool {
    filter_device(&advertising(vec![], Some((company_id, data))), &filter)
}

fn masked(key: u16, value: Vec<u8>, mask: Vec<u8>) -> ScanFilter {
    ScanFilter::ManufacturerDataMasked(key, value, mask)
}

#[test]
fn no_filter_matches_every_device() {
    assert!(with_services(vec![], ScanFilter::NoFilter));
    assert!(with_services(vec![BATTERY], ScanFilter::NoFilter));
    assert!(with_data(1, vec![2], ScanFilter::NoFilter));
}

#[test]
fn service_filter_wants_the_service() {
    assert!(with_services(vec![HEART_RATE, BATTERY], ScanFilter::Service(BATTERY)));
    assert!(!with_services(vec![HEART_RATE], ScanFilter::Service(BATTERY)));
    assert!(!with_services(vec![], ScanFilter::Service(BATTERY)));
}

#[test]
fn any_service_filter_wants_one_of_them() {
    let wanted = || ScanFilter::AnyService(vec![BATTERY, HEART_RATE]);
    assert!(with_services(vec![THERMOMETER, HEART_RATE], wanted()));
    assert!(with_services(vec![BATTERY, HEART_RATE], wanted()));
    assert!(!with_services(vec![THERMOMETER], wanted()));
    assert!(!with_services(vec![], wanted()));
}

#[test]
fn all_services_filter_wants_every_one_of_them() {
    let wanted = || ScanFilter::AllServices(vec![BATTERY, HEART_RATE]);
    assert!(with_services(vec![HEART_RATE, BATTERY], wanted()));
    assert!(with_services(vec![HEART_RATE, THERMOMETER, BATTERY], wanted()));
    assert!(!with_services(vec![HEART_RATE], wanted()));
    assert!(!with_services(vec![THERMOMETER, BATTERY], wanted()));
    assert!(!with_services(vec![], wanted()));
}

#[test]
fn empty_service_filters() {
    assert!(with_services(vec![BATTERY], ScanFilter::AllServices(vec![])));
    assert!(with_services(vec![], ScanFilter::AllServices(vec![])));
    assert!(!with_services(vec![BATTERY], ScanFilter::AnyService(vec![])));
}

#[test]
fn single_service_filters_agree() {
    for services in [vec![], vec![BATTERY], vec![HEART_RATE], vec![HEART_RATE, BATTERY]] {
        let single = with_services(services.clone(), ScanFilter::Service(BATTERY));
        assert_eq!(with_services(services.clone(), ScanFilter::AnyService(vec![BATTERY])), single);
        assert_eq!(with_services(services, ScanFilter::AllServices(vec![BATTERY])), single);
    }
}

#[test]
fn service_filters_are_monotone() {
    let services = vec![BATTERY];
    assert!(with_services(services.clone(), ScanFilter::AnyService(vec![BATTERY])));
    assert!(with_services(services.clone(), ScanFilter::AnyService(vec![THERMOMETER, BATTERY])));
    let services = vec![BATTERY, THERMOMETER];
    assert!(with_services(services.clone(), ScanFilter::AllServices(vec![THERMOMETER, BATTERY])));
    assert!(with_services(services.clone(), ScanFilter::AllServices(vec![THERMOMETER])));
    // advertising all of them is advertising any of them
    assert!(with_services(services, ScanFilter::AnyService(vec![THERMOMETER, BATTERY])));
}

#[test]
fn manufacturer_data_filter_wants_exactly_the_data() {
    let wanted = || ScanFilter::ManufacturerData(0x004c, vec![1, 2, 3]);
    assert!(with_data(0x004c, vec![1, 2, 3], wanted()));
    assert!(!with_data(0x004d, vec![1, 2, 3], wanted()));
    assert!(!with_data(0x004c, vec![1, 2, 4], wanted()));
    assert!(!with_data(0x004c, vec![1, 2], wanted()));
    assert!(!with_data(0x004c, vec![1, 2, 3, 4], wanted()));
    assert!(!with_services(vec![], wanted()));
}

#[test]
fn masked_filter_checks_only_the_bits_of_the_mask() {
    let wanted = || masked(7, vec![0b1010_0000, 0xff], vec![0b1111_0000, 0x00]);
    assert!(with_data(7, vec![0b1010_1111, 0x12], wanted()));
    assert!(!with_data(7, vec![0b1011_1111, 0x12], wanted()));
    assert!(!with_data(8, vec![0b1010_1111, 0x12], wanted()));
    assert!(!with_services(vec![], wanted()));
}

#[test]
fn masked_filter_wants_the_bits_of_the_mask_to_be_there() {
    let wanted = || masked(7, vec![1, 2], vec![0xff, 0xff]);
    assert!(with_data(7, vec![1, 2], wanted()));
    assert!(!with_data(7, vec![1], wanted()));
    assert!(!with_data(7, vec![], wanted()));
    // a byte beyond the mask is not checked, and one that the mask leaves out need not be there
    assert!(with_data(7, vec![1, 2, 3], wanted()));
    assert!(with_data(7, vec![1], masked(7, vec![1, 2], vec![0xff, 0x00])));
    assert!(with_data(7, vec![], masked(7, vec![], vec![])));
}

#[test]
fn exact_data_matches_under_any_mask() {
    for mask in [vec![0, 0], vec![0xff, 0xff], vec![0x0f, 0xf0]] {
        assert!(with_data(7, vec![0xab, 0xcd], masked(7, vec![0xab, 0xcd], mask)));
    }
}

#[test]
fn full_mask_is_exact() {
    for data in [vec![1, 2], vec![1, 3], vec![0, 0], vec![0x81, 2]] {
        assert_eq!(
            with_data(7, data.clone(), masked(7, vec![1, 2], vec![0xff, 0xff])),
            with_data(7, data, ScanFilter::ManufacturerData(7, vec![1, 2]))
        );
    }
}

#[test]
fn masked_out_bits_do_not_count() {
    for data in [vec![0x15], vec![0x1a], vec![0x25]] {
        assert_eq!(
            with_data(7, data.clone(), masked(7, vec![0x10], vec![0xf0])),
            with_data(7, data, masked(7, vec![0x1f], vec![0xf0]))
        );
    }
}

#[test]
fn mask_of_another_length_is_invalid() {
    assert_eq!(check_filter(&masked(7, vec![1, 2], vec![1])), Err(Error::InvalidFilterMask));
    assert_eq!(check_filter(&masked(7, vec![], vec![1])), Err(Error::InvalidFilterMask));
    assert_eq!(check_filter(&masked(7, vec![1, 2], vec![1, 0])), Ok(()));
    assert_eq!(check_filter(&ScanFilter::NoFilter), Ok(()));
    assert_eq!(check_filter(&ScanFilter::ManufacturerData(7, vec![1])), Ok(()));
}
