use bluetooth_timeout::app::BluetoothApp;
use bluetooth_timeout::connect_os::ConnectToDeviceError;
use bluetooth_timeout::device::BluetoothDevice;
use bluetooth_timeout::device_order::sort_by_address;
use bluetooth_timeout::discover::DiscoverDevicesError;
use bluetooth_timeout::mac_address::MacAddress;
use bluetooth_timeout::remove::RemoveDeviceError;
use bluetooth_timeout::timeout::Timeout;

fn device(octets: [u8; 6], name: &str, connected: bool) -> BluetoothDevice {
    BluetoothDevice {
        mac_address: MacAddress::from(octets),
        name: Some(name.to_string()),
        class: 0,
        connected,
        remembered: false,
        authenticated: false,
        last_seen: None,
        last_used: None,
    }
}

#[test]
fn new_app_is_empty() {
    let app = BluetoothApp::new_now();
    assert!(app.devices.is_empty());
    assert!(app.timeouts.is_empty());
    assert!(!app.scanning);
    assert!(app.editing.is_none());
    assert!(app.rescan_enabled());
}

#[test]
fn sort_orders_by_address_and_keeps_equal_ones_in_order() {
    let devices = vec![
        device([2, 0, 0, 0, 0, 0], "b", false),
        device([1, 0, 0, 0, 0, 9], "a1", false),
        device([0, 0, 0, 0, 0, 1], "z", true),
        device([1, 0, 0, 0, 0, 9], "a2", true),
    ];
    let sorted = sort_by_address(devices);
    let names: Vec<&str> = sorted.iter().map(|d| d.name.as_deref().unwrap()).collect();
    assert_eq!(names, vec!["z", "a1", "a2", "b"]);
}

#[test]
fn scan_result_replaces_devices_sorted() {
    let mut app = BluetoothApp::new_now();
    app.start_scan();
    assert!(app.scanning);
    assert!(!app.rescan_enabled());
    assert_eq!(app.try_update_with_scan_result(None), None);
    assert!(app.scanning);
    let found = vec![device([9, 9, 9, 9, 9, 9], "late", false), device([1, 1, 1, 1, 1, 1], "early", true)];
    assert_eq!(app.try_update_with_scan_result(Some(Ok(found))), None);
    assert!(!app.scanning);
    assert_eq!(app.devices.len(), 2);
    assert_eq!(app.devices[0].name.as_deref(), Some("early"));
    assert!(app.any_connected());
    assert!(app.any_available());
}

#[test]
fn scan_error_is_handed_back() {
    let mut app = BluetoothApp::new_now();
    app.devices = vec![device([1, 1, 1, 1, 1, 1], "kept", true)];
    app.start_scan();
    let err = app.try_update_with_scan_result(Some(Err(DiscoverDevicesError::OutOfMemory)));
    assert_eq!(err, Some(DiscoverDevicesError::OutOfMemory));
    assert!(!app.scanning);
    assert_eq!(app.devices.len(), 1);
}

#[test]
fn scan_result_without_scan_is_ignored() {
    let mut app = BluetoothApp::new_now();
    let found = vec![device([9, 9, 9, 9, 9, 9], "x", false)];
    assert_eq!(app.try_update_with_scan_result(Some(Ok(found))), None);
    assert!(app.devices.is_empty());
}

#[test]
fn finished_operations_trigger_a_rescan() {
    let mut app = BluetoothApp::new_now();
    assert!(!app.check_remove_connect_res(&vec![], &vec![]));
    assert!(!app.scanning);
    let removals: Vec<Result<(), RemoveDeviceError>> = vec![Err(RemoveDeviceError::NotRemembered)];
    assert!(app.check_remove_connect_res(&removals, &vec![]));
    assert!(app.scanning);
    let mut app = BluetoothApp::new_now();
    let connections: Vec<Result<(), ConnectToDeviceError>> = vec![Ok(())];
    assert!(app.check_remove_connect_res(&vec![], &connections));
}

#[test]
fn editing_target_finds_device_and_timeout() {
    let mut app = BluetoothApp::new_now();
    assert_eq!(app.editing_target(), None);
    let a = MacAddress::from([1, 2, 3, 4, 5, 6]);
    app.devices = vec![device([0, 0, 0, 0, 0, 1], "other", true), device([1, 2, 3, 4, 5, 6], "mine", true)];
    app.timeouts = vec![Timeout::default_from(a)];
    app.open_editing(a);
    assert_eq!(app.editing_target(), Some((1, 0)));
    assert!(app.editing.is_some());
    app.close_editing();
    assert!(app.editing.is_none());
}

#[test]
fn editing_without_timeout_is_closed() {
    let mut app = BluetoothApp::new_now();
    let a = MacAddress::from([1, 2, 3, 4, 5, 6]);
    app.devices = vec![device([1, 2, 3, 4, 5, 6], "mine", true)];
    app.open_editing(a);
    assert_eq!(app.editing_target(), None);
    assert!(app.editing.is_none());
}
