//! Connecting (pairing) a device through the system's prompt, as a sequence
//! of system calls.

use vstd::prelude::*;
use crate::mac_address::MacAddress;
use crate::remove::DeviceInfoReply;
use crate::win32::{
    ERROR_ACCESS_DENIED, ERROR_CANCELLED, ERROR_GEN_FAILURE, ERROR_INVALID_HANDLE,
    ERROR_INVALID_PARAMETER, ERROR_NOT_AUTHENTICATED, ERROR_NOT_FOUND, ERROR_NO_MORE_ITEMS,
    ERROR_REVISION_MISMATCH, ERROR_SUCCESS, WinError, err_eq, hresult_from_win32,
    spec_hresult_from_win32, lemma_hresult_zero_only_for_success,
};
use crate::with_err::{
    BluetoothGetDeviceInfoErr, BluetoothRemoveDeviceErr, bluetooth_get_device_info,
    bluetooth_remove_device, is_revision_mismatch, spec_device_info_status, spec_remove_status,
};

verus! {

/// Why a device could not be connected.
#[derive(Clone, Copy, Debug, PartialEq, Eq, Structural)]
pub enum ConnectToDeviceError {
    /// The provided MAC address was invalid.
    InvalidMacAddress,
    /// The Bluetooth adapter failed; Bluetooth may be off or absent.
    BluetoothError,
    /// The user was not authenticated or cancelled.
    Cancelled,
    /// Insufficient permissions, or the device cannot be paired with.
    AccessDenied,
    /// Another error from the Windows API.
    UnhandledWin32ApiErr(WinError),
}

/// The connection error a failed device query stands for.
pub open spec fn connect_error_from_info(err: BluetoothGetDeviceInfoErr) -> ConnectToDeviceError {
    match err {
        BluetoothGetDeviceInfoErr::InvalidMacAddress => ConnectToDeviceError::InvalidMacAddress,
        BluetoothGetDeviceInfoErr::BluetoothError => ConnectToDeviceError::BluetoothError,
        BluetoothGetDeviceInfoErr::Other(e) => ConnectToDeviceError::UnhandledWin32ApiErr(e),
    }
}

/// The connection error a failed removal call stands for.
pub open spec fn connect_error_from_remove(err: BluetoothRemoveDeviceErr) -> ConnectToDeviceError {
    match err {
        BluetoothRemoveDeviceErr::InvalidMacAddress => ConnectToDeviceError::InvalidMacAddress,
        BluetoothRemoveDeviceErr::BluetoothError => ConnectToDeviceError::BluetoothError,
        BluetoothRemoveDeviceErr::Other(e) => ConnectToDeviceError::UnhandledWin32ApiErr(e),
    }
}

impl From<BluetoothGetDeviceInfoErr> for ConnectToDeviceError {
    fn from(err: BluetoothGetDeviceInfoErr) -> (r: ConnectToDeviceError) {
        match err {
            BluetoothGetDeviceInfoErr::InvalidMacAddress => ConnectToDeviceError::InvalidMacAddress,
            BluetoothGetDeviceInfoErr::BluetoothError => ConnectToDeviceError::BluetoothError,
            BluetoothGetDeviceInfoErr::Other(e) => ConnectToDeviceError::UnhandledWin32ApiErr(e),
        }
    }
}

impl vstd::std_specs::convert::FromSpecImpl<BluetoothGetDeviceInfoErr> for ConnectToDeviceError {
    open spec fn obeys_from_spec() -> bool {
        true
    }

    open spec fn from_spec(err: BluetoothGetDeviceInfoErr) -> ConnectToDeviceError {
        connect_error_from_info(err)
    }
}

impl From<BluetoothRemoveDeviceErr> for ConnectToDeviceError {
    fn from(err: BluetoothRemoveDeviceErr) -> (r: ConnectToDeviceError) {
        match err {
            BluetoothRemoveDeviceErr::InvalidMacAddress => ConnectToDeviceError::InvalidMacAddress,
            BluetoothRemoveDeviceErr::BluetoothError => ConnectToDeviceError::BluetoothError,
            BluetoothRemoveDeviceErr::Other(e) => ConnectToDeviceError::UnhandledWin32ApiErr(e),
        }
    }
}

impl vstd::std_specs::convert::FromSpecImpl<BluetoothRemoveDeviceErr> for ConnectToDeviceError {
    open spec fn obeys_from_spec() -> bool {
        true
    }

    open spec fn from_spec(err: BluetoothRemoveDeviceErr) -> ConnectToDeviceError {
        connect_error_from_remove(err)
    }
}

/// The next system call of a connection, or its result.
#[derive(Clone, Copy, Debug, PartialEq, Eq)]
pub enum ConnectAction {
    /// Ask the system about the device at this address.
    GetDeviceInfo(MacAddress),
    /// Remove the pairing of the device at this address.
    RemoveDevice(MacAddress),
    /// Pair with the device at this address through the system's prompt
    /// (`BluetoothAuthenticateDeviceEx`, no protection against
    /// man-in-the-middle required).
    Authenticate(MacAddress),
    /// The connection attempt is over, with this result.
    Finish(Result<(), ConnectToDeviceError>),
}

/// Where a connection attempt stands.
#[derive(Clone, Copy, Debug, PartialEq, Eq, Structural)]
pub enum ConnectStage {
    AwaitingDeviceInfo,
    AwaitingRemoval,
    AwaitingRefreshedInfo,
    AwaitingAuthentication,
    Finished,
}

/// A connection attempt in progress; `mac_address` is the address of the
/// device as last reported.
#[derive(Clone, Copy, Debug)]
pub struct ConnectProcess {
    pub mac_address: MacAddress,
    pub stage: ConnectStage,
}

/// Whether the pairing call reported a status that cannot happen here: a
/// wrong structure size, or no more items for a device that was unpaired first.
pub open spec fn is_impossible_auth_status(status: u32) -> bool {
    spec_hresult_from_win32(status) == spec_hresult_from_win32(ERROR_REVISION_MISMATCH)
        || spec_hresult_from_win32(status) == spec_hresult_from_win32(ERROR_NO_MORE_ITEMS)
}

/// The result of the pairing call.
pub open spec fn spec_auth_result(status: u32) -> Result<(), ConnectToDeviceError> {
    let res = spec_hresult_from_win32(status);
    if res == spec_hresult_from_win32(ERROR_INVALID_PARAMETER) || res == spec_hresult_from_win32(
        ERROR_NOT_FOUND,
    ) {
        Err(ConnectToDeviceError::InvalidMacAddress)
    } else if res == spec_hresult_from_win32(ERROR_INVALID_HANDLE) || res
        == spec_hresult_from_win32(ERROR_GEN_FAILURE) {
        Err(ConnectToDeviceError::BluetoothError)
    } else if res == spec_hresult_from_win32(ERROR_CANCELLED) || res == spec_hresult_from_win32(
        ERROR_NOT_AUTHENTICATED,
    ) {
        Err(ConnectToDeviceError::Cancelled)
    } else if res == spec_hresult_from_win32(ERROR_ACCESS_DENIED) {
        Err(ConnectToDeviceError::AccessDenied)
    } else if res == spec_hresult_from_win32(ERROR_SUCCESS) {
        Ok(())
    } else {
        Err(ConnectToDeviceError::UnhandledWin32ApiErr(WinError { code: res }))
    }
}

/// The pairing call ends a connection with success exactly when it reported
/// success; a cancelled or failed authentication is reported as cancelled, a
/// refusal as access denied, an unknown device as an invalid address, and a
/// failing adapter as a Bluetooth error.
pub proof fn lemma_auth_result(status: u32)
    ensures
        spec_auth_result(status) == Ok::<(), ConnectToDeviceError>(()) <==> status == ERROR_SUCCESS,
        status == ERROR_CANCELLED || status == ERROR_NOT_AUTHENTICATED ==> spec_auth_result(status)
            == Err::<(), ConnectToDeviceError>(ConnectToDeviceError::Cancelled),
        status == ERROR_ACCESS_DENIED ==> spec_auth_result(status) == Err::<
            (),
            ConnectToDeviceError,
        >(ConnectToDeviceError::AccessDenied),
        status == ERROR_INVALID_PARAMETER || status == ERROR_NOT_FOUND ==> spec_auth_result(status)
            == Err::<(), ConnectToDeviceError>(ConnectToDeviceError::InvalidMacAddress),
        status == ERROR_INVALID_HANDLE || status == ERROR_GEN_FAILURE ==> spec_auth_result(status)
            == Err::<(), ConnectToDeviceError>(ConnectToDeviceError::BluetoothError),
{
    lemma_hresult_zero_only_for_success(status);
}

/// The stage and action that follow an answer about the device. On the first
/// answer a connected device needs nothing more, a paired one is unpaired
/// first, and any other is paired; after unpairing, the refreshed device is paired.
pub open spec fn connect_after_info(stage: ConnectStage, mac: MacAddress, reply: DeviceInfoReply) -> (
    ConnectStage,
    ConnectAction,
) {
    match spec_device_info_status(reply.status, mac, reply.address) {
        Err(e) => (ConnectStage::Finished, ConnectAction::Finish(Err(connect_error_from_info(e)))),
        Ok(()) => if stage == ConnectStage::AwaitingRefreshedInfo {
            (ConnectStage::AwaitingAuthentication, ConnectAction::Authenticate(reply.address))
        } else if reply.connected {
            (ConnectStage::Finished, ConnectAction::Finish(Ok(())))
        } else if reply.authenticated {
            (ConnectStage::AwaitingRemoval, ConnectAction::RemoveDevice(reply.address))
        } else {
            (ConnectStage::AwaitingAuthentication, ConnectAction::Authenticate(reply.address))
        },
    }
}

/// Starts connecting the device at `mac_address`: the first step asks the
/// system about it.
pub fn connect_to_device_os(mac_address: MacAddress) -> (r: (ConnectProcess, ConnectAction))
    ensures
        r.0.mac_address == mac_address,
        r.0.stage == ConnectStage::AwaitingDeviceInfo,
        r.1 == ConnectAction::GetDeviceInfo(mac_address),
{
    (
        ConnectProcess { mac_address, stage: ConnectStage::AwaitingDeviceInfo },
        ConnectAction::GetDeviceInfo(mac_address),
    )
}

impl ConnectProcess {
    /// Takes the system's answer about the device, first or refreshed.
    pub fn on_device_info(&mut self, reply: DeviceInfoReply) -> (r: ConnectAction)
        requires
            old(self).stage == ConnectStage::AwaitingDeviceInfo || old(self).stage
                == ConnectStage::AwaitingRefreshedInfo,
            !is_revision_mismatch(reply.status),
        ensures
            (final(self).stage, r) == connect_after_info(
                old(self).stage,
                old(self).mac_address,
                reply,
            ),
            final(self).mac_address == reply.address,
            reply.status != ERROR_SUCCESS ==> final(self).stage == ConnectStage::Finished
                && r matches ConnectAction::Finish(Err(_)),
            reply.status == ERROR_SUCCESS && reply.address@ == old(self).mac_address@ ==> if old(
                self,
            ).stage == ConnectStage::AwaitingRefreshedInfo || (!reply.connected
                && !reply.authenticated) {
                final(self).stage == ConnectStage::AwaitingAuthentication && r
                    == ConnectAction::Authenticate(reply.address)
            } else if reply.connected {
                final(self).stage == ConnectStage::Finished && r == ConnectAction::Finish(Ok(()))
            } else {
                final(self).stage == ConnectStage::AwaitingRemoval && r
                    == ConnectAction::RemoveDevice(reply.address)
            },
    {
        proof {
            lemma_hresult_zero_only_for_success(reply.status);
        }
        let refreshed = self.stage == ConnectStage::AwaitingRefreshedInfo;
        let target = self.mac_address;
        self.mac_address = reply.address;
        match bluetooth_get_device_info(reply.status, target, reply.address) {
            Err(e) => {
                self.stage = ConnectStage::Finished;
                ConnectAction::Finish(Err(ConnectToDeviceError::from(e)))
            },
            Ok(()) => {
                if refreshed {
                    self.stage = ConnectStage::AwaitingAuthentication;
                    ConnectAction::Authenticate(reply.address)
                } else if reply.connected {
                    self.stage = ConnectStage::Finished;
                    ConnectAction::Finish(Ok(()))
                } else if reply.authenticated {
                    self.stage = ConnectStage::AwaitingRemoval;
                    ConnectAction::RemoveDevice(reply.address)
                } else {
                    self.stage = ConnectStage::AwaitingAuthentication;
                    ConnectAction::Authenticate(reply.address)
                }
            },
        }
    }

    /// Takes the status of the unpairing call: an error ends the attempt,
    /// otherwise the device is asked about again.
    pub fn on_removed(&mut self, status: u32) -> (r: ConnectAction)
        requires
            old(self).stage == ConnectStage::AwaitingRemoval,
        ensures
            final(self).mac_address == old(self).mac_address,
            match spec_remove_status(status) {
                Ok(()) => final(self).stage == ConnectStage::AwaitingRefreshedInfo && r
                    == ConnectAction::GetDeviceInfo(old(self).mac_address),
                Err(e) => final(self).stage == ConnectStage::Finished && r == ConnectAction::Finish(
                    Err(connect_error_from_remove(e)),
                ),
            },
            status == ERROR_SUCCESS <==> r == ConnectAction::GetDeviceInfo(old(self).mac_address),
            status != ERROR_SUCCESS ==> r matches ConnectAction::Finish(Err(_)),
    {
        proof {
            lemma_hresult_zero_only_for_success(status);
        }
        match bluetooth_remove_device(status) {
            Ok(()) => {
                self.stage = ConnectStage::AwaitingRefreshedInfo;
                ConnectAction::GetDeviceInfo(self.mac_address)
            },
            Err(e) => {
                self.stage = ConnectStage::Finished;
                ConnectAction::Finish(Err(ConnectToDeviceError::from(e)))
            },
        }
    }

    /// Takes the status of the pairing call; the attempt is then over.
    pub fn on_authenticated(&mut self, status: u32) -> (r: ConnectAction)
        requires
            old(self).stage == ConnectStage::AwaitingAuthentication,
            !is_impossible_auth_status(status),
        ensures
            final(self).mac_address == old(self).mac_address,
            final(self).stage == ConnectStage::Finished,
            r == ConnectAction::Finish(spec_auth_result(status)),
            r == ConnectAction::Finish(Ok(())) <==> status == ERROR_SUCCESS,
            status == ERROR_CANCELLED || status == ERROR_NOT_AUTHENTICATED ==> r
                == ConnectAction::Finish(Err(ConnectToDeviceError::Cancelled)),
            status == ERROR_ACCESS_DENIED ==> r == ConnectAction::Finish(
                Err(ConnectToDeviceError::AccessDenied),
            ),
            status == ERROR_INVALID_PARAMETER || status == ERROR_NOT_FOUND ==> r
                == ConnectAction::Finish(Err(ConnectToDeviceError::InvalidMacAddress)),
            status == ERROR_INVALID_HANDLE || status == ERROR_GEN_FAILURE ==> r
                == ConnectAction::Finish(Err(ConnectToDeviceError::BluetoothError)),
    {
        proof {
            lemma_auth_result(status);
        }
        self.stage = ConnectStage::Finished;
        let res = hresult_from_win32(status);
        let result = if err_eq(res, ERROR_INVALID_PARAMETER) {
            Err(ConnectToDeviceError::InvalidMacAddress)
        } else if err_eq(res, ERROR_NOT_FOUND) {
            Err(ConnectToDeviceError::InvalidMacAddress)
        } else if err_eq(res, ERROR_INVALID_HANDLE) {
            Err(ConnectToDeviceError::BluetoothError)
        } else if err_eq(res, ERROR_GEN_FAILURE) {
            Err(ConnectToDeviceError::BluetoothError)
        } else if err_eq(res, ERROR_CANCELLED) {
            Err(ConnectToDeviceError::Cancelled)
        } else if err_eq(res, ERROR_NOT_AUTHENTICATED) {
            Err(ConnectToDeviceError::Cancelled)
        } else if err_eq(res, ERROR_ACCESS_DENIED) {
            Err(ConnectToDeviceError::AccessDenied)
        } else if err_eq(res, ERROR_SUCCESS) {
            Ok(())
        } else {
            Err(ConnectToDeviceError::UnhandledWin32ApiErr(WinError { code: res }))
        };
        ConnectAction::Finish(result)
    }
}

} // verus!
