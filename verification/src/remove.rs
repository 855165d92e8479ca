//! Removing (unpairing) a remembered device, as a sequence of system calls.

use vstd::prelude::*;
use crate::mac_address::MacAddress;
use crate::win32::{ERROR_SUCCESS, WinError, lemma_hresult_zero_only_for_success};
use crate::with_err::{
    BluetoothGetDeviceInfoErr, BluetoothRemoveDeviceErr, bluetooth_get_device_info,
    bluetooth_remove_device, is_revision_mismatch, spec_device_info_status, spec_remove_status,
};

verus! {

/// Why a device could not be removed.
#[derive(Clone, Copy, Debug, PartialEq, Eq, Structural)]
pub enum RemoveDeviceError {
    /// The provided MAC address was invalid.
    InvalidMacAddress,
    /// The Bluetooth adapter failed; Bluetooth may be off or absent.
    BluetoothError,
    /// The device exists but was not remembered in the first place.
    NotRemembered,
    /// Another error from the Windows API.
    UnhandledWin32ApiErr(WinError),
}

/// What the system answered about a device (`BluetoothGetDeviceInfo`): the
/// status code, the address the answer is about, and the device's flags.
#[derive(Clone, Copy, Debug)]
pub struct DeviceInfoReply {
    pub status: u32,
    pub address: MacAddress,
    pub connected: bool,
    pub remembered: bool,
    pub authenticated: bool,
}

/// The removal error a failed device query stands for.
pub open spec fn remove_error_from_info(err: BluetoothGetDeviceInfoErr) -> RemoveDeviceError {
    match err {
        BluetoothGetDeviceInfoErr::InvalidMacAddress => RemoveDeviceError::InvalidMacAddress,
        BluetoothGetDeviceInfoErr::BluetoothError => RemoveDeviceError::BluetoothError,
        BluetoothGetDeviceInfoErr::Other(e) => RemoveDeviceError::UnhandledWin32ApiErr(e),
    }
}

/// The removal error a failed removal call stands for.
pub open spec fn remove_error_from_remove(err: BluetoothRemoveDeviceErr) -> RemoveDeviceError {
    match err {
        BluetoothRemoveDeviceErr::InvalidMacAddress => RemoveDeviceError::InvalidMacAddress,
        BluetoothRemoveDeviceErr::BluetoothError => RemoveDeviceError::BluetoothError,
        BluetoothRemoveDeviceErr::Other(e) => RemoveDeviceError::UnhandledWin32ApiErr(e),
    }
}

impl From<BluetoothGetDeviceInfoErr> for RemoveDeviceError {
    fn from(err: BluetoothGetDeviceInfoErr) -> (r: RemoveDeviceError) {
        match err {
            BluetoothGetDeviceInfoErr::InvalidMacAddress => RemoveDeviceError::InvalidMacAddress,
            BluetoothGetDeviceInfoErr::BluetoothError => RemoveDeviceError::BluetoothError,
            BluetoothGetDeviceInfoErr::Other(e) => RemoveDeviceError::UnhandledWin32ApiErr(e),
        }
    }
}

impl vstd::std_specs::convert::FromSpecImpl<BluetoothGetDeviceInfoErr> for RemoveDeviceError {
    open spec fn obeys_from_spec() -> bool {
        true
    }

    open spec fn from_spec(err: BluetoothGetDeviceInfoErr) -> RemoveDeviceError {
        remove_error_from_info(err)
    }
}

impl From<BluetoothRemoveDeviceErr> for RemoveDeviceError {
    fn from(err: BluetoothRemoveDeviceErr) -> (r: RemoveDeviceError) {
        match err {
            BluetoothRemoveDeviceErr::InvalidMacAddress => RemoveDeviceError::InvalidMacAddress,
            BluetoothRemoveDeviceErr::BluetoothError => RemoveDeviceError::BluetoothError,
            BluetoothRemoveDeviceErr::Other(e) => RemoveDeviceError::UnhandledWin32ApiErr(e),
        }
    }
}

impl vstd::std_specs::convert::FromSpecImpl<BluetoothRemoveDeviceErr> for RemoveDeviceError {
    open spec fn obeys_from_spec() -> bool {
        true
    }

    open spec fn from_spec(err: BluetoothRemoveDeviceErr) -> RemoveDeviceError {
        remove_error_from_remove(err)
    }
}

/// The next system call of a removal, or its result.
#[derive(Clone, Copy, Debug, PartialEq, Eq)]
pub enum RemoveDeviceAction {
    /// Ask the system about the device at this address.
    GetDeviceInfo(MacAddress),
    /// Remove the device at this address.
    RemoveDevice(MacAddress),
    /// The removal is over, with this result.
    Finish(Result<(), RemoveDeviceError>),
}

/// Where a removal stands.
#[derive(Clone, Copy, Debug, PartialEq, Eq, Structural)]
pub enum RemoveDeviceStage {
    AwaitingDeviceInfo,
    AwaitingRemoval,
    Finished,
}

/// A removal of the device at `mac_address` in progress.
#[derive(Clone, Copy, Debug)]
pub struct RemoveDeviceProcess {
    pub mac_address: MacAddress,
    pub stage: RemoveDeviceStage,
}

/// The stage and action that follow the answer about the device: an error
/// ends the removal, a device that is not remembered is left alone, and a
/// remembered one is removed.
pub open spec fn remove_after_info(mac: MacAddress, reply: DeviceInfoReply) -> (
    RemoveDeviceStage,
    RemoveDeviceAction,
) {
    match spec_device_info_status(reply.status, mac, reply.address) {
        Err(e) => (
            RemoveDeviceStage::Finished,
            RemoveDeviceAction::Finish(Err(remove_error_from_info(e))),
        ),
        Ok(()) => if reply.remembered {
            (RemoveDeviceStage::AwaitingRemoval, RemoveDeviceAction::RemoveDevice(reply.address))
        } else {
            (RemoveDeviceStage::Finished, RemoveDeviceAction::Finish(Err(RemoveDeviceError::NotRemembered)))
        },
    }
}

/// The result of a removal once the removal call answered.
pub open spec fn remove_result(status: u32) -> Result<(), RemoveDeviceError> {
    match spec_remove_status(status) {
        Ok(()) => Ok(()),
        Err(e) => Err(remove_error_from_remove(e)),
    }
}

/// Once the system has described the device asked about, a remembered device
/// is removed whether or not it is connected, and any other is refused as not
/// remembered; a removal is asked for only after such an answer.
pub proof fn lemma_remembered_device_is_removed(mac: MacAddress, reply: DeviceInfoReply)
    ensures
        reply.status == ERROR_SUCCESS && reply.address@ == mac@ ==> remove_after_info(mac, reply)
            == if reply.remembered {
            (RemoveDeviceStage::AwaitingRemoval, RemoveDeviceAction::RemoveDevice(reply.address))
        } else {
            (
                RemoveDeviceStage::Finished,
                RemoveDeviceAction::Finish(Err(RemoveDeviceError::NotRemembered)),
            )
        },
        remove_after_info(mac, reply).1 matches RemoveDeviceAction::RemoveDevice(a) ==> a
            == reply.address && reply.status == ERROR_SUCCESS && reply.remembered,
{
    lemma_hresult_zero_only_for_success(reply.status);
}

/// A removal succeeds exactly when the removal call reported success.
pub proof fn lemma_removal_succeeds_only_on_success(status: u32)
    ensures
        remove_result(status) == Ok::<(), RemoveDeviceError>(()) <==> status == ERROR_SUCCESS,
{
    lemma_hresult_zero_only_for_success(status);
}

/// Starts removing the device at `mac_address`: the first step asks the
/// system about it.
pub fn remove_device(mac_address: MacAddress) -> (r: (RemoveDeviceProcess, RemoveDeviceAction))
    ensures
        r.0.mac_address == mac_address,
        r.0.stage == RemoveDeviceStage::AwaitingDeviceInfo,
        r.1 == RemoveDeviceAction::GetDeviceInfo(mac_address),
{
    (
        RemoveDeviceProcess { mac_address, stage: RemoveDeviceStage::AwaitingDeviceInfo },
        RemoveDeviceAction::GetDeviceInfo(mac_address),
    )
}

impl RemoveDeviceProcess {
    /// Takes the system's answer about the device. Only remembered devices
    /// are removed (an authenticated device is always remembered).
    pub fn on_device_info(&mut self, reply: DeviceInfoReply) -> (r: RemoveDeviceAction)
        requires
            old(self).stage == RemoveDeviceStage::AwaitingDeviceInfo,
            !is_revision_mismatch(reply.status),
        ensures
            final(self).mac_address == old(self).mac_address,
            (final(self).stage, r) == remove_after_info(old(self).mac_address, reply),
            reply.status == ERROR_SUCCESS && reply.address@ == old(self).mac_address@
                && reply.remembered ==> r == RemoveDeviceAction::RemoveDevice(reply.address)
                && final(self).stage == RemoveDeviceStage::AwaitingRemoval,
            reply.status == ERROR_SUCCESS && reply.address@ == old(self).mac_address@
                && !reply.remembered ==> r == RemoveDeviceAction::Finish(
                Err(RemoveDeviceError::NotRemembered),
            ),
            r matches RemoveDeviceAction::RemoveDevice(a) ==> a == reply.address
                && reply.status == ERROR_SUCCESS && reply.remembered,
            reply.status != ERROR_SUCCESS ==> r matches RemoveDeviceAction::Finish(Err(_)),
    {
        proof {
            lemma_hresult_zero_only_for_success(reply.status);
        }
        match bluetooth_get_device_info(reply.status, self.mac_address, reply.address) {
            Err(e) => {
                self.stage = RemoveDeviceStage::Finished;
                RemoveDeviceAction::Finish(Err(RemoveDeviceError::from(e)))
            },
            Ok(()) => {
                if !reply.remembered {
                    self.stage = RemoveDeviceStage::Finished;
                    RemoveDeviceAction::Finish(Err(RemoveDeviceError::NotRemembered))
                } else {
                    self.stage = RemoveDeviceStage::AwaitingRemoval;
                    RemoveDeviceAction::RemoveDevice(reply.address)
                }
            },
        }
    }

    /// Takes the status the removal call returned; the removal is then over.
    pub fn on_removed(&mut self, status: u32) -> (r: RemoveDeviceAction)
        requires
            old(self).stage == RemoveDeviceStage::AwaitingRemoval,
        ensures
            final(self).mac_address == old(self).mac_address,
            final(self).stage == RemoveDeviceStage::Finished,
            r == RemoveDeviceAction::Finish(remove_result(status)),
            r == RemoveDeviceAction::Finish(Ok(())) <==> status == ERROR_SUCCESS,
    {
        proof {
            lemma_hresult_zero_only_for_success(status);
        }
        self.stage = RemoveDeviceStage::Finished;
        match bluetooth_remove_device(status) {
            Ok(()) => RemoveDeviceAction::Finish(Ok(())),
            Err(e) => RemoveDeviceAction::Finish(Err(RemoveDeviceError::from(e))),
        }
    }
}

} // verus!
