use tauri_plugin_blec::models::BleDevice;
use tauri_plugin_blec::text::{recv_string, send_string};

use std::cmp::Ordering;
use std::collections::HashMap;

fn device(address: &str, name: &str) -> BleDevice {
    BleDevice {
        address: address.to_string(),
        name: name.to_string(),
        is_connected: false,
        is_bonded: false,
        manufacturer_data: HashMap::new(),
        service_data: HashMap::new(),
        services: vec![],
        rssi: None,
        tx_power_level: None,
    }
}

#[test]
fn text_survives_the_round_trip() {
    for text in ["", "hello", "grüße", "温度 21°", "🦀"] {
        let bytes = send_string(&text.to_string());
        assert_eq!(recv_string(&bytes), text);
    }
}

#[test]
fn text_is_sent_as_utf8() {
    assert_eq!(send_string(&"aé€".to_string()), vec![0x61, 0xc3, 0xa9, 0xe2, 0x82, 0xac]);
}

#[test]
fn invalid_bytes_are_replaced() {
    assert_eq!(recv_string(&vec![0x68, 0x69, 0xff, 0x21]), "hi\u{fffd}!");
    assert_eq!(recv_string(&vec![0x68, 0xff, 0x69]), "h\u{fffd}i");
    assert_eq!(recv_string(&vec![0xff]), "\u{fffd}");
}

#[test]
fn devices_are_equal_if_their_addresses_are() {
    assert!(device("AA", "first") == device("AA", "second"));
    assert!(device("AA", "same") != device("AB", "same"));
}

#[test]
fn devices_are_ordered_by_address() {
    let a = device("AA:01", "z");
    let b = device("AA:02", "a");
    assert_eq!(a.cmp(&b), Ordering::Less);
    assert_eq!(b.cmp(&a), Ordering::Greater);
    assert_eq!(a.cmp(&device("AA:01", "")), Ordering::Equal);
    assert_eq!(a.partial_cmp(&b), Some(Ordering::Less));
    assert!(a < b);
    assert!(b > a);
}

#[test]
fn a_prefix_stands_before_what_it_begins() {
    assert_eq!(device("AA", "").cmp(&device("AA:", "")), Ordering::Less);
    assert_eq!(device("", "").cmp(&device("A", "")), Ordering::Less);
    assert_eq!(device("", "").cmp(&device("", "")), Ordering::Equal);
}

#[test]
fn addresses_are_ordered_by_code_point() {
    // U+FFFF stands before U+10000, although its UTF-16 form does not.
    assert_eq!(device("\u{ffff}", "").cmp(&device("\u{10000}", "")), Ordering::Less);
    assert_eq!(device("Z", "").cmp(&device("a", "")), Ordering::Less);
}

#[test]
fn device_order_is_transitive() {
    let (a, b, c) = (device("10", ""), device("2", ""), device("20", ""));
    assert!(a < b && b < c && a < c);
}
