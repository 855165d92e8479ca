//! The state of the application and the decisions it takes on each frame.

use vstd::prelude::*;
use crate::device::BluetoothDevice;
use crate::device_order::{sort_by_address, stable_sorted_by_address};
use crate::discover::DiscoverDevicesError;
use crate::connect_os::ConnectToDeviceError;
use crate::remove::RemoveDeviceError;
use crate::editing::TimeoutEditing;
use crate::mac_address::{MacAddress, lemma_mac_view_injective};
use crate::time_span::{TimeSpan, saturating_sub};
use crate::timeout::{Timeout, default_timeout};
use crate::timeout_laws::{
    counted_down, has_expiring_timeout, lemma_expired_devices_removed,
    lemma_surviving_timeouts_count_down, remaining_below,
};

verus! {

broadcast use lemma_mac_view_injective;

/// Whether a connected device with the given address is among the devices.
pub open spec fn connected_with(devices: Seq<BluetoothDevice>, mac: MacAddress) -> bool {
    exists|i: int| 0 <= i < devices.len() && #[trigger] devices[i].connected && devices[i].mac_address == mac
}

/// Whether a timeout for the given address is among the timeouts.
pub open spec fn has_timeout_for(timeouts: Seq<Timeout>, mac: MacAddress) -> bool {
    exists|i: int| 0 <= i < timeouts.len() && #[trigger] timeouts[i].mac_address == mac
}

/// Whether a timeout runs out within `elapsed`.
pub open spec fn expires_within(t: Timeout, elapsed: TimeSpan) -> bool {
    t.duration matches Some(d) && d.total_nanos() < elapsed.total_nanos()
}

/// A timeout once `elapsed` has passed: its remaining time shrinks by
/// `elapsed` and stops at zero.
pub open spec fn timeout_after(t: Timeout, elapsed: TimeSpan) -> Timeout {
    match t.duration {
        Some(d) => Timeout { duration: Some(saturating_sub(d, elapsed)), ..t },
        None => t,
    }
}

/// The timeouts kept after `elapsed` has passed: each advanced by `elapsed`,
/// and only those whose device is connected.
pub open spec fn kept_timeouts(
    timeouts: Seq<Timeout>,
    elapsed: TimeSpan,
    devices: Seq<BluetoothDevice>,
) -> Seq<Timeout> {
    timeouts.map_values(|t: Timeout| timeout_after(t, elapsed)).filter(
        |t: Timeout| connected_with(devices, t.mac_address),
    )
}

/// The addresses of the timeouts that run out within `elapsed`, in order:
/// these devices are removed.
pub open spec fn expired_addresses(timeouts: Seq<Timeout>, elapsed: TimeSpan) -> Seq<MacAddress> {
    timeouts.filter(|t: Timeout| expires_within(t, elapsed)).map_values(
        |t: Timeout| t.mac_address,
    )
}

/// The timeouts with a default timeout added, in device order, for each
/// connected device that has none yet.
pub open spec fn add_missing_timeouts(timeouts: Seq<Timeout>, devices: Seq<BluetoothDevice>) -> Seq<
    Timeout,
>
    decreases devices.len(),
{
    if devices.len() == 0 {
        timeouts
    } else {
        let before = add_missing_timeouts(timeouts, devices.drop_last());
        let d = devices.last();
        if d.connected && !has_timeout_for(before, d.mac_address) {
            before.push(default_timeout(d.mac_address))
        } else {
            before
        }
    }
}

/// The timeouts after one update: advanced by `elapsed`, dropped where their
/// device is no longer connected, and added for newly connected devices.
pub open spec fn updated_timeouts(
    timeouts: Seq<Timeout>,
    elapsed: TimeSpan,
    devices: Seq<BluetoothDevice>,
) -> Seq<Timeout> {
    add_missing_timeouts(kept_timeouts(timeouts, elapsed, devices), devices)
}

/// The addresses of the devices removed when the application closes: those
/// whose timeout says so, in order.
pub open spec fn exit_addresses(timeouts: Seq<Timeout>) -> Seq<MacAddress> {
    timeouts.filter(|t: Timeout| t.remove_on_close).map_values(|t: Timeout| t.mac_address)
}

/// Whether a device with the given address is among the devices.
pub open spec fn has_device(devices: Seq<BluetoothDevice>, mac: MacAddress) -> bool {
    exists|i: int| 0 <= i < devices.len() && #[trigger] devices[i].mac_address == mac
}

/// Every timeout is well formed.
pub open spec fn all_wf(timeouts: Seq<Timeout>) -> bool {
    forall|i: int| 0 <= i < timeouts.len() ==> #[trigger] timeouts[i].wf()
}

/// The state of the application.
pub struct BluetoothApp {
    /// The devices found by the last scan, ordered by address.
    pub devices: Vec<BluetoothDevice>,
    /// The timeouts of the connected devices.
    pub timeouts: Vec<Timeout>,
    /// Whether a scan has been started and its result not yet taken.
    pub scanning: bool,
    /// The timeout editor, where one is open.
    pub editing: Option<TimeoutEditing>,
}

fn is_connected_with(devices: &Vec<BluetoothDevice>, mac: &MacAddress) -> (r: bool)
    ensures
        r == connected_with(devices@, *mac),
{
    let mut i: usize = 0;
    while i < devices.len()
        invariant
            0 <= i <= devices.len(),
            forall|j: int| 0 <= j < i ==> !(#[trigger] devices@[j].connected && devices@[j].mac_address == *mac),
        decreases devices.len() - i,
    {
        if devices[i].connected && devices[i].mac_address.same_as(mac) {
            return true;
        }
        i = i + 1;
    }
    false
}

fn position_of_timeout(timeouts: &Vec<Timeout>, mac: &MacAddress) -> (r: Option<usize>)
    ensures
        r is None <==> !has_timeout_for(timeouts@, *mac),
        r matches Some(i) ==> i < timeouts@.len() && timeouts@[i as int].mac_address == *mac
            && forall|j: int| 0 <= j < i ==> timeouts@[j].mac_address != *mac,
{
    let mut i: usize = 0;
    while i < timeouts.len()
        invariant
            0 <= i <= timeouts.len(),
            forall|j: int| 0 <= j < i ==> #[trigger] timeouts@[j].mac_address != *mac,
        decreases timeouts.len() - i,
    {
        if timeouts[i].mac_address.same_as(mac) {
            return Some(i);
        }
        i = i + 1;
    }
    None
}

fn position_of_device(devices: &Vec<BluetoothDevice>, mac: &MacAddress) -> (r: Option<usize>)
    ensures
        r is None <==> !has_device(devices@, *mac),
        r matches Some(i) ==> i < devices@.len() && devices@[i as int].mac_address == *mac
            && forall|j: int| 0 <= j < i ==> devices@[j].mac_address != *mac,
{
    let mut i: usize = 0;
    while i < devices.len()
        invariant
            0 <= i <= devices.len(),
            forall|j: int| 0 <= j < i ==> #[trigger] devices@[j].mac_address != *mac,
        decreases devices.len() - i,
    {
        if devices[i].mac_address.same_as(mac) {
            return Some(i);
        }
        i = i + 1;
    }
    None
}

impl BluetoothApp {
    /// Well-formedness: every timeout is well formed.
    pub open spec fn wf(&self) -> bool {
        all_wf(self.timeouts@)
    }

    /// Advances every timeout by `elapsed`: a timeout that runs out is set to
    /// zero and its device is to be removed; timeouts of devices no longer
    /// connected are dropped, and each newly connected device gets a default
    /// timeout. Returns the addresses of the devices to remove.
    pub fn process_timeout(&mut self, elapsed: TimeSpan) -> (removed: Vec<MacAddress>)
        requires
            old(self).wf(),
            elapsed.wf(),
        ensures
            final(self).wf(),
            final(self).timeouts@ == updated_timeouts(old(self).timeouts@, elapsed, old(self).devices@),
            removed@ == expired_addresses(old(self).timeouts@, elapsed),
            forall|k: int|
                0 <= k < old(self).timeouts@.len() && connected_with(
                    old(self).devices@,
                    (#[trigger] old(self).timeouts@[k]).mac_address,
                ) ==> exists|j: int|
                    0 <= j < final(self).timeouts@.len() && (#[trigger] final(self).timeouts@[j]).mac_address
                        == old(self).timeouts@[k].mac_address && final(self).timeouts@[j].remove_on_close
                        == old(self).timeouts@[k].remove_on_close
                        && counted_down(
                        old(self).timeouts@[k].duration,
                        final(self).timeouts@[j].duration,
                        elapsed,
                    ),
            forall|k: int|
                0 <= k < old(self).timeouts@.len() && remaining_below(
                    (#[trigger] old(self).timeouts@[k]).duration,
                    elapsed,
                ) ==> removed@.contains(old(self).timeouts@[k].mac_address),
            forall|i: int|
                0 <= i < removed@.len() ==> has_expiring_timeout(
                    old(self).timeouts@,
                    #[trigger] removed@[i],
                    elapsed,
                ),
            final(self).devices@ == old(self).devices@,
            final(self).scanning == old(self).scanning,
            final(self).editing == old(self).editing,
    {
        let ghost old_ts = self.timeouts@;
        let ghost devs = self.devices@;
        let ghost scanning = self.scanning;
        let ghost editing = self.editing;
        let mut kept: Vec<Timeout> = Vec::new();
        let mut removed: Vec<MacAddress> = Vec::new();
        let n = self.timeouts.len();
        let mut i: usize = 0;
        while i < n
            invariant
                0 <= i <= n,
                n == old_ts.len(),
                self.timeouts@ == old_ts,
                self.devices@ == devs,
                self.scanning == scanning,
                self.editing == editing,
                all_wf(old_ts),
                elapsed.wf(),
                kept@ == kept_timeouts(old_ts.take(i as int), elapsed, devs),
                removed@ == expired_addresses(old_ts.take(i as int), elapsed),
                all_wf(kept@),
            decreases n - i,
        {
            let mut t = self.timeouts[i];
            assert(t.wf());
            if let Some(d) = t.duration {
                match d.checked_sub(elapsed) {
                    Some(rest) => {
                        t.duration = Some(rest);
                    },
                    None => {
                        t.duration = Some(TimeSpan::zero());
                        removed.push(t.mac_address);
                    },
                }
            }
            assert(t == timeout_after(old_ts[i as int], elapsed));
            proof {
                let s = old_ts.take(i as int);
                assert(old_ts.take(i + 1) =~= s.push(old_ts[i as int]));
                s.lemma_push_map_commute(|t: Timeout| timeout_after(t, elapsed), old_ts[i as int]);
                s.map_values(|t: Timeout| timeout_after(t, elapsed)).lemma_filter_push(
                    t,
                    |t: Timeout| connected_with(devs, t.mac_address),
                );
                s.lemma_filter_push(old_ts[i as int], |t: Timeout| expires_within(t, elapsed));
                s.filter(|t: Timeout| expires_within(t, elapsed)).lemma_push_map_commute(
                    |t: Timeout| t.mac_address,
                    old_ts[i as int],
                );
            }
            if is_connected_with(&self.devices, &t.mac_address) {
                kept.push(t);
            }
            i = i + 1;
        }
        assert(old_ts.take(n as int) =~= old_ts);
        self.timeouts = kept;
        let m = self.devices.len();
        let ghost kept_all = self.timeouts@;
        let mut j: usize = 0;
        while j < m
            invariant
                0 <= j <= m,
                m == devs.len(),
                self.devices@ == devs,
                self.scanning == scanning,
                self.editing == editing,
                self.timeouts@ == add_missing_timeouts(kept_all, devs.take(j as int)),
                all_wf(self.timeouts@),
            decreases m - j,
        {
            proof {
                assert(devs.take(j + 1).drop_last() =~= devs.take(j as int));
            }
            let mac = self.devices[j].mac_address;
            if self.devices[j].connected && position_of_timeout(&self.timeouts, &mac).is_none() {
                self.timeouts.push(Timeout::default_from(mac));
            }
            j = j + 1;
        }
        assert(devs.take(m as int) =~= devs);
        proof {
            lemma_expired_devices_removed(old_ts, elapsed);
            assert forall|k: int|
                0 <= k < old_ts.len() && connected_with(devs, (#[trigger] old_ts[k]).mac_address)
                    implies exists|j: int|
                    0 <= j < self.timeouts@.len() && (#[trigger] self.timeouts@[j]).mac_address
                        == old_ts[k].mac_address && self.timeouts@[j].remove_on_close
                        == old_ts[k].remove_on_close && counted_down(
                        old_ts[k].duration,
                        self.timeouts@[j].duration,
                        elapsed,
                    ) by {
                lemma_surviving_timeouts_count_down(old_ts, elapsed, devs, k);
            }
        }
        removed
    }
}

impl BluetoothApp {
    /// A fresh application: no devices, no timeouts, no scan, no editor.
    pub fn new_now() -> (r: BluetoothApp)
        ensures
            r.wf(),
            r.devices@.len() == 0,
            r.timeouts@.len() == 0,
            !r.scanning,
            r.editing is None,
    {
        BluetoothApp { devices: Vec::new(), timeouts: Vec::new(), scanning: false, editing: None }
    }

    /// Marks a scan as started; the caller runs the scan in the background.
    pub fn start_scan(&mut self)
        ensures
            final(self).scanning,
            final(self).devices@ == old(self).devices@,
            final(self).timeouts@ == old(self).timeouts@,
            final(self).editing == old(self).editing,
    {
        self.scanning = true;
    }

    /// Takes the result of the running scan where one has arrived (`None`
    /// where it has not). A list of devices replaces the known devices,
    /// ordered by address; an error is handed back to be reported. Either
    /// way the scan is over.
    pub fn try_update_with_scan_result(
        &mut self,
        result: Option<Result<Vec<BluetoothDevice>, DiscoverDevicesError>>,
    ) -> (err: Option<DiscoverDevicesError>)
        ensures
            final(self).timeouts@ == old(self).timeouts@,
            final(self).editing == old(self).editing,
            match result {
                Some(Ok(devices)) if old(self).scanning => {
                    &&& !final(self).scanning
                    &&& stable_sorted_by_address(final(self).devices@, devices@)
                    &&& err is None
                },
                Some(Err(e)) if old(self).scanning => {
                    &&& !final(self).scanning
                    &&& final(self).devices@ == old(self).devices@
                    &&& err == Some(e)
                },
                _ => {
                    &&& final(self).scanning == old(self).scanning
                    &&& final(self).devices@ == old(self).devices@
                    &&& err is None
                },
            },
    {
        if !self.scanning {
            return None;
        }
        match result {
            None => None,
            Some(Ok(devices)) => {
                self.devices = sort_by_address(devices);
                self.scanning = false;
                None
            },
            Some(Err(e)) => {
                self.scanning = false;
                Some(e)
            },
        }
    }

    /// Takes note of the removals and connections that finished since the
    /// last frame (their errors are reported by the caller): if any did, a
    /// new scan is started, and `true` tells the caller to run it.
    pub fn check_remove_connect_res(
        &mut self,
        removals: &Vec<Result<(), RemoveDeviceError>>,
        connections: &Vec<Result<(), ConnectToDeviceError>>,
    ) -> (rescan: bool)
        ensures
            rescan == (removals@.len() > 0 || connections@.len() > 0),
            final(self).scanning == (rescan || old(self).scanning),
            final(self).devices@ == old(self).devices@,
            final(self).timeouts@ == old(self).timeouts@,
            final(self).editing == old(self).editing,
    {
        let updated = removals.len() > 0 || connections.len() > 0;
        if updated {
            self.start_scan();
        }
        updated
    }

    /// Closes the application: all timeouts are dropped, and the addresses of
    /// the devices to remove on close are returned.
    pub fn on_exit(&mut self) -> (removed: Vec<MacAddress>)
        ensures
            final(self).timeouts@.len() == 0,
            removed@ == exit_addresses(old(self).timeouts@),
            final(self).devices@ == old(self).devices@,
            final(self).scanning == old(self).scanning,
            final(self).editing == old(self).editing,
    {
        let ghost ts = self.timeouts@;
        let mut removed: Vec<MacAddress> = Vec::new();
        let mut i: usize = 0;
        while i < self.timeouts.len()
            invariant
                0 <= i <= self.timeouts@.len(),
                self.timeouts@ == ts,
                removed@ == exit_addresses(ts.take(i as int)),
            decreases self.timeouts@.len() - i,
        {
            let t = self.timeouts[i];
            proof {
                let s = ts.take(i as int);
                assert(ts.take(i + 1) =~= s.push(t));
                s.lemma_filter_push(t, |t: Timeout| t.remove_on_close);
                s.filter(|t: Timeout| t.remove_on_close).lemma_push_map_commute(
                    |t: Timeout| t.mac_address,
                    t,
                );
            }
            if t.remove_on_close {
                removed.push(t.mac_address);
            }
            i = i + 1;
        }
        assert(ts.take(ts.len() as int) =~= ts);
        self.timeouts = Vec::new();
        removed
    }

    /// The index of the timeout for `mac`; where there is none, a default
    /// timeout is added for it first.
    pub fn timeout_index_for(&mut self, mac: MacAddress) -> (i: usize)
        requires
            old(self).wf(),
        ensures
            final(self).wf(),
            i < final(self).timeouts@.len(),
            final(self).timeouts@[i as int].mac_address == mac,
            forall|j: int| 0 <= j < i ==> final(self).timeouts@[j].mac_address != mac,
            if has_timeout_for(old(self).timeouts@, mac) {
                final(self).timeouts@ == old(self).timeouts@
            } else {
                final(self).timeouts@ == old(self).timeouts@.push(default_timeout(mac))
            },
            final(self).devices@ == old(self).devices@,
            final(self).scanning == old(self).scanning,
            final(self).editing == old(self).editing,
    {
        match position_of_timeout(&self.timeouts, &mac) {
            Some(i) => i,
            None => {
                self.timeouts.push(Timeout::default_from(mac));
                self.timeouts.len() - 1
            },
        }
    }

    /// Whether any known device is connected.
    pub fn any_connected(&self) -> (r: bool)
        ensures
            r == exists|i: int| 0 <= i < self.devices@.len() && #[trigger] self.devices@[i].connected,
    {
        let mut i: usize = 0;
        while i < self.devices.len()
            invariant
                0 <= i <= self.devices@.len(),
                forall|j: int| 0 <= j < i ==> !(#[trigger] self.devices@[j].connected),
            decreases self.devices@.len() - i,
        {
            if self.devices[i].connected {
                return true;
            }
            i = i + 1;
        }
        false
    }

    /// Whether any known device is not connected, so can be connected to.
    pub fn any_available(&self) -> (r: bool)
        ensures
            r == exists|i: int| 0 <= i < self.devices@.len() && !(#[trigger] self.devices@[i].connected),
    {
        let mut i: usize = 0;
        while i < self.devices.len()
            invariant
                0 <= i <= self.devices@.len(),
                forall|j: int| 0 <= j < i ==> #[trigger] self.devices@[j].connected,
            decreases self.devices@.len() - i,
        {
            if !self.devices[i].connected {
                return true;
            }
            i = i + 1;
        }
        false
    }

    /// Whether the rescan button can be pressed: no scan is running (while
    /// one is, a spinner shows instead).
    pub fn rescan_enabled(&self) -> (r: bool)
        ensures
            r == !self.scanning,
    {
        !self.scanning
    }

    /// Finds what the open timeout editor works on: the first device and the
    /// first timeout with the editor's address, as indices. Where there is no
    /// editor, `None`; where the device or its timeout is gone, the editor is
    /// closed and `None` returned.
    pub fn editing_target(&mut self) -> (r: Option<(usize, usize)>)
        ensures
            final(self).devices@ == old(self).devices@,
            final(self).timeouts@ == old(self).timeouts@,
            final(self).scanning == old(self).scanning,
            match old(self).editing {
                None => r is None && final(self).editing is None,
                Some(e) => if has_device(old(self).devices@, e.mac_address) && has_timeout_for(
                    old(self).timeouts@,
                    e.mac_address,
                ) {
                    &&& final(self).editing == old(self).editing
                    &&& r matches Some((d, t)) && d < old(self).devices@.len() && t
                        < old(self).timeouts@.len() && old(self).devices@[d as int].mac_address
                        == e.mac_address && old(self).timeouts@[t as int].mac_address
                        == e.mac_address && (forall|j: int|
                        0 <= j < d ==> old(self).devices@[j].mac_address != e.mac_address) && (
                    forall|j: int| 0 <= j < t ==> old(self).timeouts@[j].mac_address != e.mac_address)
                } else {
                    r is None && final(self).editing is None
                },
            },
    {
        let mac = match &self.editing {
            None => {
                return None;
            },
            Some(e) => e.mac_address,
        };
        match (position_of_device(&self.devices, &mac), position_of_timeout(&self.timeouts, &mac)) {
            (Some(d), Some(t)) => Some((d, t)),
            _ => {
                self.editing = None;
                None
            },
        }
    }

    /// Closes the timeout editor.
    pub fn close_editing(&mut self)
        ensures
            final(self).editing is None,
            final(self).devices@ == old(self).devices@,
            final(self).timeouts@ == old(self).timeouts@,
            final(self).scanning == old(self).scanning,
    {
        self.editing = None;
    }

    /// Opens the timeout editor for the device at `mac`.
    pub fn open_editing(&mut self, mac: MacAddress)
        ensures
            final(self).editing matches Some(e) && e.mac_address == mac && e.text_edit_buffer@.len()
                == 0 && !e.buffer_prev_had_focus,
            final(self).devices@ == old(self).devices@,
            final(self).timeouts@ == old(self).timeouts@,
            final(self).scanning == old(self).scanning,
    {
        self.editing = Some(TimeoutEditing::new_of(mac));
    }
}

} // verus!
