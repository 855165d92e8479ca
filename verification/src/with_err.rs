//! What the status codes of the Win32 Bluetooth calls mean.

use vstd::prelude::*;
use crate::mac_address::MacAddress;
use crate::win32::{
    ERROR_GEN_FAILURE, ERROR_INVALID_HANDLE, ERROR_INVALID_PARAMETER, ERROR_NOT_FOUND,
    ERROR_REVISION_MISMATCH, ERROR_SUCCESS, WinError, err_eq, hresult_from_win32,
    spec_hresult_from_win32,
};

verus! {

/// How `BluetoothRemoveDevice` failed.
#[derive(Clone, Copy, Debug, PartialEq, Eq, Structural)]
pub enum BluetoothRemoveDeviceErr {
    InvalidMacAddress,
    BluetoothError,
    Other(WinError),
}

/// How `BluetoothGetDeviceInfo` failed.
#[derive(Clone, Copy, Debug, PartialEq, Eq, Structural)]
pub enum BluetoothGetDeviceInfoErr {
    InvalidMacAddress,
    BluetoothError,
    Other(WinError),
}

/// The meaning of the status `BluetoothRemoveDevice` returned.
pub open spec fn spec_remove_status(status: u32) -> Result<(), BluetoothRemoveDeviceErr> {
    let res = spec_hresult_from_win32(status);
    if res == spec_hresult_from_win32(ERROR_INVALID_PARAMETER) || res == spec_hresult_from_win32(
        ERROR_NOT_FOUND,
    ) {
        Err(BluetoothRemoveDeviceErr::InvalidMacAddress)
    } else if res == spec_hresult_from_win32(ERROR_GEN_FAILURE) || res == spec_hresult_from_win32(
        ERROR_INVALID_HANDLE,
    ) {
        Err(BluetoothRemoveDeviceErr::BluetoothError)
    } else if res == spec_hresult_from_win32(ERROR_SUCCESS) {
        Ok(())
    } else {
        Err(BluetoothRemoveDeviceErr::Other(WinError { code: res }))
    }
}

/// Whether `BluetoothGetDeviceInfo` reported a wrong structure size, which
/// cannot happen for a structure this library sets up.
pub open spec fn is_revision_mismatch(status: u32) -> bool {
    spec_hresult_from_win32(status) == spec_hresult_from_win32(ERROR_REVISION_MISMATCH)
}

/// The meaning of the status `BluetoothGetDeviceInfo` returned when asked
/// about `target` and answering about `returned`.
pub open spec fn spec_device_info_status(
    status: u32,
    target: MacAddress,
    returned: MacAddress,
) -> Result<(), BluetoothGetDeviceInfoErr> {
    let res = spec_hresult_from_win32(status);
    if res == spec_hresult_from_win32(ERROR_INVALID_PARAMETER) || res == spec_hresult_from_win32(
        ERROR_NOT_FOUND,
    ) {
        Err(BluetoothGetDeviceInfoErr::InvalidMacAddress)
    } else if res == spec_hresult_from_win32(ERROR_SUCCESS) && target@ != returned@ {
        Err(BluetoothGetDeviceInfoErr::InvalidMacAddress)
    } else if res == spec_hresult_from_win32(ERROR_GEN_FAILURE) || res == spec_hresult_from_win32(
        ERROR_INVALID_HANDLE,
    ) {
        Err(BluetoothGetDeviceInfoErr::BluetoothError)
    } else if res == spec_hresult_from_win32(ERROR_SUCCESS) {
        Ok(())
    } else {
        Err(BluetoothGetDeviceInfoErr::Other(WinError { code: res }))
    }
}

/// Interprets the status code `BluetoothRemoveDevice` returned.
pub fn bluetooth_remove_device(status: u32) -> (r: Result<(), BluetoothRemoveDeviceErr>)
    ensures
        r == spec_remove_status(status),
{
    let res = hresult_from_win32(status);
    if err_eq(res, ERROR_INVALID_PARAMETER) {
        Err(BluetoothRemoveDeviceErr::InvalidMacAddress)
    } else if err_eq(res, ERROR_NOT_FOUND) {
        Err(BluetoothRemoveDeviceErr::InvalidMacAddress)
    } else if err_eq(res, ERROR_GEN_FAILURE) {
        Err(BluetoothRemoveDeviceErr::BluetoothError)
    } else if err_eq(res, ERROR_INVALID_HANDLE) {
        Err(BluetoothRemoveDeviceErr::BluetoothError)
    } else if err_eq(res, ERROR_SUCCESS) {
        Ok(())
    } else {
        Err(BluetoothRemoveDeviceErr::Other(WinError { code: res }))
    }
}

/// Interprets the status code `BluetoothGetDeviceInfo` returned when asked
/// about `target`; `returned` is the address of the device it described.
pub fn bluetooth_get_device_info(status: u32, target: MacAddress, returned: MacAddress) -> (r:
    Result<(), BluetoothGetDeviceInfoErr>)
    requires
        !is_revision_mismatch(status),
    ensures
        r == spec_device_info_status(status, target, returned),
{
    let res = hresult_from_win32(status);
    if err_eq(res, ERROR_INVALID_PARAMETER) {
        Err(BluetoothGetDeviceInfoErr::InvalidMacAddress)
    } else if err_eq(res, ERROR_NOT_FOUND) {
        Err(BluetoothGetDeviceInfoErr::InvalidMacAddress)
    } else if err_eq(res, ERROR_SUCCESS) && !target.same_as(&returned) {
        Err(BluetoothGetDeviceInfoErr::InvalidMacAddress)
    } else if err_eq(res, ERROR_GEN_FAILURE) {
        Err(BluetoothGetDeviceInfoErr::BluetoothError)
    } else if err_eq(res, ERROR_INVALID_HANDLE) {
        Err(BluetoothGetDeviceInfoErr::BluetoothError)
    } else if err_eq(res, ERROR_SUCCESS) {
        Ok(())
    } else {
        Err(BluetoothGetDeviceInfoErr::Other(WinError { code: res }))
    }
}

} // verus!
