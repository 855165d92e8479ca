use bluetooth_timeout::connect_os::{ConnectAction, ConnectStage, ConnectToDeviceError, connect_to_device_os};
use bluetooth_timeout::device::{RawDeviceInfo, SystemTime, epoch};
use bluetooth_timeout::discover::{DiscoverDevicesError, DiscoveryStep, discover_devices};
use bluetooth_timeout::ext::BluetoothDeviceExt;
use bluetooth_timeout::mac_address::MacAddress;
use bluetooth_timeout::remove::{DeviceInfoReply, RemoveDeviceAction, RemoveDeviceError, RemoveDeviceStage, remove_device};
use bluetooth_timeout::win32::{
    ERROR_ACCESS_DENIED, ERROR_CANCELLED, ERROR_GEN_FAILURE, ERROR_INVALID_HANDLE, ERROR_INVALID_PARAMETER,
    ERROR_NOT_FOUND, ERROR_NO_MORE_ITEMS, ERROR_OUTOFMEMORY, ERROR_SUCCESS, WinError, err_eq, hresult_from_win32,
};
use bluetooth_timeout::with_err::{
    BluetoothGetDeviceInfoErr, BluetoothRemoveDeviceErr, bluetooth_get_device_info, bluetooth_remove_device,
};

fn mac(last: u8) -> MacAddress {
    MacAddress::from([0xAA, 0xBB, 0xCC, 0xDD, 0xEE, last])
}

fn reply(status: u32, address: MacAddress, connected: bool, remembered: bool, authenticated: bool) -> DeviceInfoReply {
    DeviceInfoReply { status, address, connected, remembered, authenticated }
}

fn info(last: u8, name: &str) -> RawDeviceInfo {
    let mut units: Vec<u16> = name.encode_utf16().collect();
    units.resize(248, 0);
    RawDeviceInfo {
        address: mac(last),
        class_of_device: 0x240404,
        connected: last % 2 == 0,
        remembered: true,
        authenticated: false,
        last_seen: epoch(),
        last_used: epoch(),
        name: units,
    }
}

#[test]
fn hresult_from_win32_matches_windows() {
    assert_eq!(hresult_from_win32(ERROR_SUCCESS), 0);
    assert_eq!(hresult_from_win32(ERROR_INVALID_PARAMETER), 0x8007_0057u32 as i32);
    assert_eq!(hresult_from_win32(ERROR_NOT_FOUND), 0x8007_0490u32 as i32);
    assert_eq!(hresult_from_win32(0x8000_4005), 0x8000_4005u32 as i32);
    assert_eq!(hresult_from_win32(0x0001_0057), 0x8007_0057u32 as i32);
    assert!(err_eq(0x8007_0057u32 as i32, ERROR_INVALID_PARAMETER));
    assert!(!err_eq(0, ERROR_INVALID_PARAMETER));
}

#[test]
fn remove_status_codes() {
    assert_eq!(bluetooth_remove_device(ERROR_SUCCESS), Ok(()));
    assert_eq!(bluetooth_remove_device(ERROR_INVALID_PARAMETER), Err(BluetoothRemoveDeviceErr::InvalidMacAddress));
    assert_eq!(bluetooth_remove_device(ERROR_NOT_FOUND), Err(BluetoothRemoveDeviceErr::InvalidMacAddress));
    assert_eq!(bluetooth_remove_device(ERROR_GEN_FAILURE), Err(BluetoothRemoveDeviceErr::BluetoothError));
    assert_eq!(bluetooth_remove_device(ERROR_INVALID_HANDLE), Err(BluetoothRemoveDeviceErr::BluetoothError));
    assert_eq!(
        bluetooth_remove_device(ERROR_ACCESS_DENIED),
        Err(BluetoothRemoveDeviceErr::Other(WinError { code: 0x8007_0005u32 as i32 }))
    );
}

#[test]
fn device_info_status_codes() {
    assert_eq!(bluetooth_get_device_info(ERROR_SUCCESS, mac(1), mac(1)), Ok(()));
    assert_eq!(
        bluetooth_get_device_info(ERROR_SUCCESS, mac(1), mac(2)),
        Err(BluetoothGetDeviceInfoErr::InvalidMacAddress)
    );
    assert_eq!(
        bluetooth_get_device_info(ERROR_NOT_FOUND, mac(1), mac(1)),
        Err(BluetoothGetDeviceInfoErr::InvalidMacAddress)
    );
    assert_eq!(
        bluetooth_get_device_info(ERROR_GEN_FAILURE, mac(1), mac(1)),
        Err(BluetoothGetDeviceInfoErr::BluetoothError)
    );
    assert_eq!(
        bluetooth_get_device_info(ERROR_CANCELLED, mac(1), mac(1)),
        Err(BluetoothGetDeviceInfoErr::Other(WinError { code: 0x8007_04C7u32 as i32 }))
    );
}

#[test]
fn error_conversions() {
    assert_eq!(RemoveDeviceError::from(BluetoothGetDeviceInfoErr::BluetoothError), RemoveDeviceError::BluetoothError);
    assert_eq!(
        RemoveDeviceError::from(BluetoothRemoveDeviceErr::Other(WinError { code: 7 })),
        RemoveDeviceError::UnhandledWin32ApiErr(WinError { code: 7 })
    );
    assert_eq!(
        ConnectToDeviceError::from(BluetoothGetDeviceInfoErr::InvalidMacAddress),
        ConnectToDeviceError::InvalidMacAddress
    );
    assert_eq!(ConnectToDeviceError::from(BluetoothRemoveDeviceErr::BluetoothError), ConnectToDeviceError::BluetoothError);
}

#[test]
fn remove_remembered_device() {
    let (mut process, action) = remove_device(mac(1));
    assert_eq!(action, RemoveDeviceAction::GetDeviceInfo(mac(1)));
    let next = process.on_device_info(reply(ERROR_SUCCESS, mac(1), true, true, true));
    assert_eq!(next, RemoveDeviceAction::RemoveDevice(mac(1)));
    assert_eq!(process.stage, RemoveDeviceStage::AwaitingRemoval);
    assert_eq!(process.on_removed(ERROR_SUCCESS), RemoveDeviceAction::Finish(Ok(())));
    assert_eq!(process.stage, RemoveDeviceStage::Finished);
}

#[test]
fn removal_failure_is_mapped() {
    let (mut process, _) = remove_device(mac(1));
    process.on_device_info(reply(ERROR_SUCCESS, mac(1), false, true, false));
    assert_eq!(
        process.on_removed(ERROR_GEN_FAILURE),
        RemoveDeviceAction::Finish(Err(RemoveDeviceError::BluetoothError))
    );
}

#[test]
fn device_not_remembered_is_left_alone() {
    let (mut process, _) = remove_device(mac(1));
    let next = process.on_device_info(reply(ERROR_SUCCESS, mac(1), true, false, false));
    assert_eq!(next, RemoveDeviceAction::Finish(Err(RemoveDeviceError::NotRemembered)));
    assert_eq!(process.stage, RemoveDeviceStage::Finished);
}

#[test]
fn unknown_device_cannot_be_removed() {
    let (mut process, _) = remove_device(mac(1));
    let next = process.on_device_info(reply(ERROR_NOT_FOUND, mac(1), false, false, false));
    assert_eq!(next, RemoveDeviceAction::Finish(Err(RemoveDeviceError::InvalidMacAddress)));
}

#[test]
fn connected_device_needs_nothing() {
    let (mut process, action) = connect_to_device_os(mac(3));
    assert_eq!(action, ConnectAction::GetDeviceInfo(mac(3)));
    let next = process.on_device_info(reply(ERROR_SUCCESS, mac(3), true, true, true));
    assert_eq!(next, ConnectAction::Finish(Ok(())));
}

#[test]
fn paired_device_is_unpaired_then_paired_again() {
    let (mut process, _) = connect_to_device_os(mac(3));
    assert_eq!(process.on_device_info(reply(ERROR_SUCCESS, mac(3), false, true, true)), ConnectAction::RemoveDevice(mac(3)));
    assert_eq!(process.on_removed(ERROR_SUCCESS), ConnectAction::GetDeviceInfo(mac(3)));
    assert_eq!(process.stage, ConnectStage::AwaitingRefreshedInfo);
    // after unpairing, the refreshed answer leads to pairing whatever its flags
    assert_eq!(process.on_device_info(reply(ERROR_SUCCESS, mac(3), true, false, false)), ConnectAction::Authenticate(mac(3)));
    assert_eq!(process.on_authenticated(ERROR_SUCCESS), ConnectAction::Finish(Ok(())));
    assert_eq!(process.stage, ConnectStage::Finished);
}

#[test]
fn pairing_outcomes() {
    let cases = [
        (ERROR_CANCELLED, Err(ConnectToDeviceError::Cancelled)),
        (ERROR_ACCESS_DENIED, Err(ConnectToDeviceError::AccessDenied)),
        (ERROR_INVALID_HANDLE, Err(ConnectToDeviceError::BluetoothError)),
        (ERROR_NOT_FOUND, Err(ConnectToDeviceError::InvalidMacAddress)),
        (ERROR_OUTOFMEMORY, Err(ConnectToDeviceError::UnhandledWin32ApiErr(WinError { code: 0x8007_000Eu32 as i32 }))),
    ];
    for (status, expected) in cases {
        let (mut process, _) = connect_to_device_os(mac(4));
        assert_eq!(process.on_device_info(reply(ERROR_SUCCESS, mac(4), false, false, false)), ConnectAction::Authenticate(mac(4)));
        assert_eq!(process.on_authenticated(status), ConnectAction::Finish(expected));
    }
}

#[test]
fn connect_fails_when_unpairing_fails() {
    let (mut process, _) = connect_to_device_os(mac(3));
    process.on_device_info(reply(ERROR_SUCCESS, mac(3), false, true, true));
    assert_eq!(process.on_removed(ERROR_NOT_FOUND), ConnectAction::Finish(Err(ConnectToDeviceError::InvalidMacAddress)));
}

#[test]
fn device_ext_starts_processes() {
    let device = bluetooth_timeout::device::device_from_info(&info(6, "Speaker"));
    assert_eq!(device.connect().1, ConnectAction::GetDeviceInfo(mac(6)));
    assert_eq!(device.remove().1, RemoveDeviceAction::GetDeviceInfo(mac(6)));
}

#[test]
fn discovery_lists_devices_in_order() {
    let discovery = discover_devices();
    let step = discovery.on_first_device(Ok(info(1, "Speaker")));
    let discovery = match step {
        DiscoveryStep::FindNext(d) => d,
        _ => panic!("expected to search on"),
    };
    let discovery = match discovery.on_next_device(Ok(info(2, "Mouse"))) {
        DiscoveryStep::FindNext(d) => d,
        _ => panic!("expected to search on"),
    };
    let discovery = match discovery.on_next_device(Err(hresult_from_win32(ERROR_NO_MORE_ITEMS))) {
        DiscoveryStep::Close(d) => d,
        _ => panic!("expected to close"),
    };
    let devices = discovery.on_closed(Ok(())).unwrap();
    assert_eq!(devices.len(), 2);
    assert_eq!(devices[0].name.as_deref(), Some("Speaker"));
    assert_eq!(devices[1].mac_address, mac(2));
    assert!(devices[1].connected);
}

#[test]
fn discovery_without_devices() {
    match discover_devices().on_first_device(Err(hresult_from_win32(ERROR_NO_MORE_ITEMS))) {
        DiscoveryStep::Finish(Ok(v)) => assert!(v.is_empty()),
        _ => panic!("expected an empty list"),
    }
    match discover_devices().on_first_device(Err(hresult_from_win32(ERROR_OUTOFMEMORY))) {
        DiscoveryStep::Finish(Err(e)) => assert_eq!(e, DiscoverDevicesError::OutOfMemory),
        _ => panic!("expected out of memory"),
    }
}

#[test]
fn discovery_failures() {
    let discovery = match discover_devices().on_first_device(Ok(info(1, "A"))) {
        DiscoveryStep::FindNext(d) => d,
        _ => panic!("expected to search on"),
    };
    match discovery.on_next_device(Err(hresult_from_win32(ERROR_GEN_FAILURE))) {
        DiscoveryStep::CloseThenFail(e) => {
            assert_eq!(e, DiscoverDevicesError::UnhandledWin32ApiErr(WinError { code: 0x8007_001Fu32 as i32 }))
        }
        _ => panic!("expected a failure"),
    }
    let discovery = match discover_devices().on_first_device(Ok(info(1, "A"))) {
        DiscoveryStep::FindNext(d) => d,
        _ => panic!("expected to search on"),
    };
    assert_eq!(
        discovery.on_closed(Err(-5)).err(),
        Some(DiscoverDevicesError::UnhandledWin32ApiErr(WinError { code: -5 }))
    );
}

#[test]
fn system_time_stamps() {
    let leap = SystemTime { year: 2024, month: 2, day_of_week: 4, day: 29, hour: 23, minute: 59, second: 59, milliseconds: 999 };
    let not_leap = SystemTime { year: 2023, ..leap };
    assert!(bluetooth_timeout::device::system_time_convertible(leap));
    assert!(!bluetooth_timeout::device::system_time_convertible(not_leap));
    assert!(bluetooth_timeout::device::system_time_convertible(epoch()));
    let leap_second = SystemTime { milliseconds: 1500, ..leap };
    assert!(bluetooth_timeout::device::system_time_convertible(leap_second));
    let bad_leap_second = SystemTime { second: 58, milliseconds: 1500, ..leap };
    assert!(!bluetooth_timeout::device::system_time_convertible(bad_leap_second));
    assert_eq!(bluetooth_timeout::device::into_opt_naive_date(epoch()), None);
    let dt = bluetooth_timeout::device::into_opt_naive_date(leap).unwrap();
    assert_eq!((dt.year, dt.month, dt.day, dt.hour, dt.minute, dt.second, dt.millisecond), (2024, 2, 29, 23, 59, 59, 999));
}
