use bluetooth_timeout::card::{can_truncate, display_name, timeout_label, truncated_name};
use bluetooth_timeout::device::{BluetoothDevice, device_name};
use bluetooth_timeout::logging::{LogLevel, message_field, record_message_field};
use bluetooth_timeout::mac_address::MacAddress;
use bluetooth_timeout::notification::{NotificationColor, level_color, level_label};
use bluetooth_timeout::time_span::TimeSpan;
use bluetooth_timeout::timeout::Timeout;

#[test]
fn mac_address_text() {
    let m = MacAddress::from([0x0A, 0x1B, 0x2C, 0x3D, 0x4E, 0xF5]);
    assert_eq!(m.to_upper_hex(), "0A:1B:2C:3D:4E:F5");
    assert_eq!(m.to_lower_hex(), "0a:1b:2c:3d:4e:f5");
    let octets: [u8; 6] = m.into();
    assert_eq!(octets, [0x0A, 0x1B, 0x2C, 0x3D, 0x4E, 0xF5]);
    assert_eq!(MacAddress::from_octets(octets).octets(), octets);
}

#[test]
fn mac_address_order_follows_key() {
    let a = MacAddress::from([0, 0, 0, 0, 1, 0]);
    let b = MacAddress::from([0, 0, 0, 0, 0, 255]);
    assert_eq!(a.key(), 256);
    assert_eq!(b.key(), 255);
    assert!(b < a);
    assert!(MacAddress::from([0, 9, 9, 9, 9, 9]) < MacAddress::from([1, 0, 0, 0, 0, 0]));
    assert_eq!(a.partial_cmp(&MacAddress::from([0, 0, 0, 0, 1, 0])), Some(std::cmp::Ordering::Equal));
    assert_eq!(a.cmp(&b), std::cmp::Ordering::Greater);
    let back: [u8; 6] = a.into();
    assert_eq!(MacAddress::from(back), a);
    assert_eq!(MacAddress::from([1, 0, 0, 0, 0, 0]).key(), 0x0100_0000_0000);
    assert!(a.same_as(&MacAddress::from([0, 0, 0, 0, 1, 0])));
    assert!(!a.same_as(&b));
}

#[test]
fn names_from_wide_buffers() {
    let mut units: Vec<u16> = "Kopfhörer".encode_utf16().collect();
    units.resize(248, 0);
    assert_eq!(device_name(&units), Some("Kopfhörer".to_string()));
    assert_eq!(device_name(&vec![0u16; 248]), None);
    assert_eq!(device_name(&vec![0x0041, 0xD800, 0x0042]), Some("A\u{FFFD}B".to_string()));
    assert_eq!(device_name(&vec![0x0041, 0, 0x0042, 0]), Some("A\0B".to_string()));
    assert_eq!(device_name(&vec![0xD83D, 0xDE00, 0xDC00, 0]), Some("\u{1F600}\u{FFFD}".to_string()));
}

#[test]
fn names_are_truncated_on_cards() {
    assert_eq!(truncated_name("Short name", 20), "Short name");
    assert_eq!(truncated_name("Exactly twenty chars", 20), "Exactly twenty chars");
    assert_eq!(truncated_name("A rather long device name", 20), "A rather long devic…");
    assert_eq!(truncated_name("éééééééééabc", 20), "éééééééééa…");
    assert!(can_truncate("éééééééééabc", 20));
    assert!(!can_truncate("ééééééééééé", 20));
    assert!(!can_truncate("short", 0));
    assert!(can_truncate("", 0));
}

#[test]
fn cards_show_unknown_for_unnamed_devices() {
    let mut d = BluetoothDevice {
        mac_address: MacAddress::from([1, 2, 3, 4, 5, 6]),
        name: None,
        class: 0,
        connected: true,
        remembered: true,
        authenticated: true,
        last_seen: None,
        last_used: None,
    };
    assert_eq!(display_name(&d), "Unknown");
    d.name = Some("Headset".to_string());
    assert_eq!(display_name(&d), "Headset");
}

#[test]
fn timeout_labels() {
    let mac = MacAddress::from([1, 2, 3, 4, 5, 6]);
    assert_eq!(timeout_label(&Timeout::default_from(mac)), "Timeout: None");
    let t = Timeout { mac_address: mac, duration: Some(TimeSpan::from_secs(3625)), remove_on_close: true };
    assert_eq!(timeout_label(&t), "Timeout: 1h 25s");
}

#[test]
fn message_fields_are_collected() {
    assert!(message_field("message"));
    assert!(message_field("MESSAGE"));
    assert!(message_field("MeSsAgE"));
    assert!(!message_field("messages"));
    assert!(!message_field("target"));
    let mut m = String::new();
    record_message_field(&mut m, "target", "ignored");
    record_message_field(&mut m, "Message", "Scanning");
    record_message_field(&mut m, "message", " again");
    assert_eq!(m, "Scanning again");
}

#[test]
fn notification_titles_and_colors() {
    assert_eq!(level_label(LogLevel::Info), "INFO    ");
    assert_eq!(level_label(LogLevel::Error), "ERROR   ");
    assert_eq!(level_label(LogLevel::Trace), "TRACE   ");
    assert_eq!(level_color(LogLevel::Debug), NotificationColor::LightBlue);
    assert_eq!(level_color(LogLevel::Warn), NotificationColor::Orange);
    assert_eq!(level_color(LogLevel::Error), NotificationColor::Red);
    assert_eq!(level_color(LogLevel::Info), NotificationColor::Green);
    assert_eq!(level_color(LogLevel::Trace), NotificationColor::LightGray);
}
