//! Connecting and removing a device through the device itself.

use vstd::prelude::*;
use crate::connect_os::{ConnectAction, ConnectProcess, ConnectStage, connect_to_device_os};
use crate::device::BluetoothDevice;
use crate::remove::{RemoveDeviceAction, RemoveDeviceProcess, RemoveDeviceStage, remove_device};

verus! {

/// Connecting and removing a device by its address.
pub trait BluetoothDeviceExt {
    spec fn address_of(&self) -> crate::mac_address::MacAddress;

    /// Starts connecting the device.
    fn connect(&self) -> (r: (ConnectProcess, ConnectAction))
        ensures
            r.0.mac_address == self.address_of(),
            r.0.stage == ConnectStage::AwaitingDeviceInfo,
            r.1 == ConnectAction::GetDeviceInfo(self.address_of()),
    ;

    /// Starts removing the device.
    fn remove(&self) -> (r: (RemoveDeviceProcess, RemoveDeviceAction))
        ensures
            r.0.mac_address == self.address_of(),
            r.0.stage == RemoveDeviceStage::AwaitingDeviceInfo,
            r.1 == RemoveDeviceAction::GetDeviceInfo(self.address_of()),
    ;
}

impl BluetoothDeviceExt for BluetoothDevice {
    open spec fn address_of(&self) -> crate::mac_address::MacAddress {
        self.mac_address
    }

    fn connect(&self) -> (r: (ConnectProcess, ConnectAction)) {
        connect_to_device_os(self.mac_address)
    }

    fn remove(&self) -> (r: (RemoveDeviceProcess, RemoveDeviceAction)) {
        remove_device(self.mac_address)
    }
}

} // verus!
