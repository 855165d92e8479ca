//! Listing the devices the system knows, as a sequence of system calls.

use vstd::prelude::*;
use crate::device::{BluetoothDevice, RawDeviceInfo, device_from_info, spec_device_from_info};
use crate::win32::{
    ERROR_INVALID_HANDLE, ERROR_INVALID_PARAMETER, ERROR_NO_MORE_ITEMS, ERROR_OUTOFMEMORY,
    ERROR_REVISION_MISMATCH, WinError, hresult_from_win32, spec_hresult_from_win32,
};

verus! {

/// Why the devices could not be listed.
#[derive(Clone, Copy, Debug, PartialEq, Eq, Structural)]
pub enum DiscoverDevicesError {
    /// Not enough storage is available to complete the operation.
    OutOfMemory,
    /// Another error from the Windows API.
    UnhandledWin32ApiErr(WinError),
}

/// A listing of devices in progress, holding the devices found so far in the
/// order the system reported them.
pub struct Discovery {
    pub found: Vec<BluetoothDevice>,
}

/// What to do after a report of the system.
pub enum DiscoveryStep {
    /// Ask for the next device (`BluetoothFindNextDevice`).
    FindNext(Discovery),
    /// All devices are listed: close the search handle, then pass the
    /// outcome to `on_closed`.
    Close(Discovery),
    /// The search failed: close the search handle, ignoring how that goes,
    /// and end with this error.
    CloseThenFail(DiscoverDevicesError),
    /// The listing is over, with this result; no handle is open.
    Finish(Result<Vec<BluetoothDevice>, DiscoverDevicesError>),
}

/// The error a failing search reports, by its `HRESULT`: out of memory, or
/// another error.
pub open spec fn search_error(code: i32) -> DiscoverDevicesError {
    if code == spec_hresult_from_win32(ERROR_OUTOFMEMORY) {
        DiscoverDevicesError::OutOfMemory
    } else {
        DiscoverDevicesError::UnhandledWin32ApiErr(WinError { code })
    }
}

/// Whether a failure of the first search call cannot happen here: a wrong
/// structure size or invalid search parameters.
pub open spec fn is_impossible_first_error(code: i32) -> bool {
    code == spec_hresult_from_win32(ERROR_REVISION_MISMATCH) || code == spec_hresult_from_win32(
        ERROR_INVALID_PARAMETER,
    )
}

/// Whether a failure of a later search call cannot happen here: an invalid handle.
pub open spec fn is_impossible_next_error(code: i32) -> bool {
    code == spec_hresult_from_win32(ERROR_INVALID_HANDLE)
}

/// A listed device has the address, class and flags the system reported for it.
pub open spec fn reports_flags(info: RawDeviceInfo, d: BluetoothDevice) -> bool {
    &&& d.mac_address == info.address
    &&& d.class == info.class_of_device
    &&& d.connected == info.connected
    &&& d.remembered == info.remembered
    &&& d.authenticated == info.authenticated
}

/// Whether a report is a device whose time stamps can be converted.
pub open spec fn report_valid(report: &Result<RawDeviceInfo, i32>) -> bool {
    report matches Ok(info) ==> info.times_valid()
}

fn search_error_of(code: i32) -> (r: DiscoverDevicesError)
    ensures
        r == search_error(code),
{
    if code == hresult_from_win32(ERROR_OUTOFMEMORY) {
        DiscoverDevicesError::OutOfMemory
    } else {
        DiscoverDevicesError::UnhandledWin32ApiErr(WinError { code })
    }
}

/// Starts listing devices: the first step is `BluetoothFindFirstDevice`,
/// asking for authenticated, remembered, unknown and connected devices
/// without a new inquiry.
pub fn discover_devices() -> (r: Discovery)
    ensures
        r.found@.len() == 0,
{
    Discovery { found: Vec::new() }
}

impl Discovery {
    /// Takes the outcome of the first search call: a device, or the
    /// `HRESULT` of its failure. "No more items" means there are no devices.
    pub fn on_first_device(self, report: Result<RawDeviceInfo, i32>) -> (r: DiscoveryStep)
        requires
            report_valid(&report),
            report matches Err(code) ==> !is_impossible_first_error(code),
            self.found@.len() == 0,
        ensures
            match report {
                Ok(info) => r matches DiscoveryStep::FindNext(d) && d.found@.len() == 1
                    && spec_device_from_info(info, d.found@[0]) && reports_flags(info, d.found@[0]),
                Err(code) => if code == spec_hresult_from_win32(ERROR_NO_MORE_ITEMS) {
                    r matches DiscoveryStep::Finish(Ok(v)) && v@.len() == 0
                } else {
                    r matches DiscoveryStep::Finish(Err(e)) && e == search_error(code)
                },
            },
    {
        let mut found = self.found;
        match report {
            Ok(info) => {
                found.push(device_from_info(&info));
                DiscoveryStep::FindNext(Discovery { found })
            },
            Err(code) => {
                if code == hresult_from_win32(ERROR_NO_MORE_ITEMS) {
                    DiscoveryStep::Finish(Ok(found))
                } else {
                    DiscoveryStep::Finish(Err(search_error_of(code)))
                }
            },
        }
    }

    /// Takes the outcome of a later search call: a device, or the `HRESULT`
    /// of its failure. "No more items" ends the search.
    pub fn on_next_device(self, report: Result<RawDeviceInfo, i32>) -> (r: DiscoveryStep)
        requires
            report_valid(&report),
            report matches Err(code) ==> !is_impossible_next_error(code),
        ensures
            match report {
                Ok(info) => r matches DiscoveryStep::FindNext(d) && d.found@.len()
                    == self.found@.len() + 1 && d.found@.take(self.found@.len() as int)
                    == self.found@ && spec_device_from_info(info, d.found@[self.found@.len() as int])
                    && reports_flags(info, d.found@[self.found@.len() as int]),
                Err(code) => if code == spec_hresult_from_win32(ERROR_NO_MORE_ITEMS) {
                    r matches DiscoveryStep::Close(d) && d.found@ == self.found@
                } else {
                    r matches DiscoveryStep::CloseThenFail(e) && e == search_error(code)
                },
            },
    {
        let ghost before = self.found@;
        let mut found = self.found;
        match report {
            Ok(info) => {
                found.push(device_from_info(&info));
                assert(found@.take(before.len() as int) =~= before);
                DiscoveryStep::FindNext(Discovery { found })
            },
            Err(code) => {
                if code == hresult_from_win32(ERROR_NO_MORE_ITEMS) {
                    DiscoveryStep::Close(Discovery { found })
                } else {
                    DiscoveryStep::CloseThenFail(search_error_of(code))
                }
            },
        }
    }

    /// Takes the outcome of closing the search handle: success gives the
    /// devices found, a failure its error.
    pub fn on_closed(self, closed: Result<(), i32>) -> (r: Result<Vec<BluetoothDevice>, DiscoverDevicesError>)
        ensures
            match closed {
                Ok(()) => r matches Ok(v) && v@ == self.found@,
                Err(code) => r == Err::<Vec<BluetoothDevice>, DiscoverDevicesError>(
                    DiscoverDevicesError::UnhandledWin32ApiErr(WinError { code }),
                ),
            },
    {
        match closed {
            Ok(()) => Ok(self.found),
            Err(code) => Err(DiscoverDevicesError::UnhandledWin32ApiErr(WinError { code })),
        }
    }
}

} // verus!
