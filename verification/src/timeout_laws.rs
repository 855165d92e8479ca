//! What every update of the timeouts keeps true.

use vstd::prelude::*;
use crate::app::{
    add_missing_timeouts, all_wf, connected_with, exit_addresses, expired_addresses,
    has_timeout_for, kept_timeouts, timeout_after, updated_timeouts,
};
use crate::device::BluetoothDevice;
use crate::mac_address::{MacAddress, lemma_mac_view_injective};
use crate::time_span::{TimeSpan, lemma_from_total_nanos_total};
use crate::timeout::{Timeout, default_timeout};

verus! {

broadcast use lemma_mac_view_injective;

/// No two timeouts are for the same address.
pub open spec fn distinct_addresses(timeouts: Seq<Timeout>) -> bool {
    forall|i: int, j: int|
        0 <= i < j < timeouts.len() ==> #[trigger] timeouts[i].mac_address
            != #[trigger] timeouts[j].mac_address
}

proof fn lemma_kept_push(s: Seq<Timeout>, x: Timeout, elapsed: TimeSpan, devices: Seq<BluetoothDevice>)
    ensures
        kept_timeouts(s.push(x), elapsed, devices) == if connected_with(devices, x.mac_address) {
            kept_timeouts(s, elapsed, devices).push(timeout_after(x, elapsed))
        } else {
            kept_timeouts(s, elapsed, devices)
        },
{
    let f = |t: Timeout| timeout_after(t, elapsed);
    let p = |t: Timeout| connected_with(devices, t.mac_address);
    s.lemma_push_map_commute(f, x);
    s.map_values(f).lemma_filter_push(f(x), p);
}

proof fn lemma_kept_facts(timeouts: Seq<Timeout>, elapsed: TimeSpan, devices: Seq<BluetoothDevice>)
    ensures
        forall|k: int|
            0 <= k < kept_timeouts(timeouts, elapsed, devices).len() ==> connected_with(
                devices,
                (#[trigger] kept_timeouts(timeouts, elapsed, devices)[k]).mac_address,
            ) && has_timeout_for(timeouts, kept_timeouts(timeouts, elapsed, devices)[k].mac_address),
        distinct_addresses(timeouts) ==> distinct_addresses(kept_timeouts(timeouts, elapsed, devices)),
        forall|k: int|
            0 <= k < timeouts.len() && connected_with(devices, #[trigger] timeouts[k].mac_address)
                ==> kept_timeouts(timeouts, elapsed, devices).contains(
                timeout_after(timeouts[k], elapsed),
            ),
    decreases timeouts.len(),
{
    let kept = kept_timeouts(timeouts, elapsed, devices);
    if timeouts.len() == 0 {
        assert(kept =~= Seq::<Timeout>::empty()) by {
            reveal(Seq::filter);
        }
    } else {
        let s = timeouts.drop_last();
        let x = timeouts.last();
        assert(timeouts =~= s.push(x));
        lemma_kept_facts(s, elapsed, devices);
        lemma_kept_push(s, x, elapsed, devices);
        let ks = kept_timeouts(s, elapsed, devices);
        assert forall|k: int| 0 <= k < kept.len() implies connected_with(
            devices,
            (#[trigger] kept[k]).mac_address,
        ) && has_timeout_for(timeouts, kept[k].mac_address) by {
            if k < ks.len() {
                assert(kept[k] == ks[k]);
                assert(connected_with(devices, ks[k].mac_address));
                let w = choose|w: int| 0 <= w < s.len() && #[trigger] s[w].mac_address == ks[k].mac_address;
                assert(timeouts[w] == s[w]);
            } else {
                assert(kept[k] == timeout_after(x, elapsed));
                assert(timeouts[timeouts.len() - 1] == x);
            }
        }
        if distinct_addresses(timeouts) {
            assert(distinct_addresses(s)) by {
                assert forall|i: int, j: int| 0 <= i < j < s.len() implies #[trigger] s[i].mac_address
                    != #[trigger] s[j].mac_address by {
                    assert(s[i] == timeouts[i] && s[j] == timeouts[j]);
                }
            }
            if connected_with(devices, x.mac_address) {
                assert forall|i: int, j: int| 0 <= i < j < kept.len() implies #[trigger] kept[i].mac_address
                    != #[trigger] kept[j].mac_address by {
                    if j == kept.len() - 1 {
                        assert(kept[i] == ks[i]);
                        if ks[i].mac_address == x.mac_address {
                            let w = choose|w: int| 0 <= w < s.len() && #[trigger] s[w].mac_address == ks[i].mac_address;
                            assert(timeouts[w] == s[w]);
                            assert(timeouts[timeouts.len() - 1] == x);
                        }
                    } else {
                        assert(kept[i] == ks[i] && kept[j] == ks[j]);
                    }
                }
            }
        }
        assert forall|k: int|
            0 <= k < timeouts.len() && connected_with(devices, #[trigger] timeouts[k].mac_address)
                implies kept.contains(timeout_after(timeouts[k], elapsed)) by {
            if k < s.len() {
                assert(timeouts[k] == s[k]);
                let w = choose|w: int| 0 <= w < ks.len() && ks[w] == timeout_after(s[k], elapsed);
                assert(kept[w] == ks[w]);
            } else {
                assert(timeouts[k] == x);
                assert(kept[kept.len() - 1] == timeout_after(x, elapsed));
            }
        }
    }
}

proof fn lemma_add_missing_facts(timeouts: Seq<Timeout>, devices: Seq<BluetoothDevice>)
    ensures
        ({
            let r = add_missing_timeouts(timeouts, devices);
            &&& r.len() >= timeouts.len()
            &&& r.take(timeouts.len() as int) == timeouts
            &&& forall|k: int|
                timeouts.len() <= k < r.len() ==> #[trigger] r[k] == default_timeout(r[k].mac_address)
                    && connected_with(devices, r[k].mac_address) && !has_timeout_for(
                    timeouts,
                    r[k].mac_address,
                )
            &&& forall|i: int|
                0 <= i < devices.len() && #[trigger] devices[i].connected ==> has_timeout_for(
                    r,
                    devices[i].mac_address,
                )
            &&& distinct_addresses(timeouts) ==> distinct_addresses(r)
        }),
    decreases devices.len(),
{
    let r = add_missing_timeouts(timeouts, devices);
    if devices.len() == 0 {
        assert(r.take(timeouts.len() as int) =~= timeouts);
    } else {
        let ds = devices.drop_last();
        let d = devices.last();
        lemma_add_missing_facts(timeouts, ds);
        let before = add_missing_timeouts(timeouts, ds);
        assert forall|k: int|
            timeouts.len() <= k < r.len() implies #[trigger] r[k] == default_timeout(r[k].mac_address)
                && connected_with(devices, r[k].mac_address) && !has_timeout_for(
                timeouts,
                r[k].mac_address,
            ) by {
            if k < before.len() {
                assert(r[k] == before[k]);
                let w = choose|w: int| 0 <= w < ds.len() && #[trigger] ds[w].connected && ds[w].mac_address == before[k].mac_address;
                assert(devices[w] == ds[w]);
            } else {
                assert(devices[devices.len() - 1] == d);
                if has_timeout_for(timeouts, d.mac_address) {
                    let w = choose|w: int| 0 <= w < timeouts.len() && #[trigger] timeouts[w].mac_address == d.mac_address;
                    assert(before.take(timeouts.len() as int)[w] == before[w]);
                }
            }
        }
        assert(r.take(timeouts.len() as int) =~= timeouts) by {
            assert(before.take(timeouts.len() as int) == timeouts);
        }
        assert forall|i: int|
            0 <= i < devices.len() && #[trigger] devices[i].connected implies has_timeout_for(
                r,
                devices[i].mac_address,
            ) by {
            if i < ds.len() {
                assert(devices[i] == ds[i]);
                assert(ds[i].connected);
                let w = choose|w: int| 0 <= w < before.len() && #[trigger] before[w].mac_address == ds[i].mac_address;
                assert(r[w] == before[w]);
            } else {
                assert(devices[i] == d);
                if !has_timeout_for(before, d.mac_address) {
                    assert(r[r.len() - 1].mac_address == d.mac_address);
                }
            }
        }
        if distinct_addresses(timeouts) {
            assert forall|i: int, j: int| 0 <= i < j < r.len() implies #[trigger] r[i].mac_address
                != #[trigger] r[j].mac_address by {
                if j < before.len() {
                    assert(r[i] == before[i] && r[j] == before[j]);
                } else {
                    assert(r[i] == before[i]);
                    assert(r[j].mac_address == d.mac_address);
                }
            }
        }
    }
}

/// After an update every connected device has a timeout, and every timeout
/// belongs to a connected device.
pub proof fn lemma_timeouts_follow_connected_devices(
    timeouts: Seq<Timeout>,
    elapsed: TimeSpan,
    devices: Seq<BluetoothDevice>,
)
    ensures
        forall|i: int|
            0 <= i < devices.len() && #[trigger] devices[i].connected ==> has_timeout_for(
                updated_timeouts(timeouts, elapsed, devices),
                devices[i].mac_address,
            ),
        forall|k: int|
            0 <= k < updated_timeouts(timeouts, elapsed, devices).len() ==> connected_with(
                devices,
                (#[trigger] updated_timeouts(timeouts, elapsed, devices)[k]).mac_address,
            ),
{
    let kept = kept_timeouts(timeouts, elapsed, devices);
    let r = updated_timeouts(timeouts, elapsed, devices);
    lemma_kept_facts(timeouts, elapsed, devices);
    lemma_add_missing_facts(kept, devices);
    assert forall|k: int| 0 <= k < r.len() implies connected_with(
        devices,
        (#[trigger] r[k]).mac_address,
    ) by {
        if k < kept.len() {
            assert(r.take(kept.len() as int)[k] == r[k]);
            assert(kept[k] == r[k]);
        }
    }
}

/// An update never gives two timeouts the same address.
pub proof fn lemma_update_keeps_addresses_distinct(
    timeouts: Seq<Timeout>,
    elapsed: TimeSpan,
    devices: Seq<BluetoothDevice>,
)
    requires
        distinct_addresses(timeouts),
    ensures
        distinct_addresses(updated_timeouts(timeouts, elapsed, devices)),
{
    lemma_kept_facts(timeouts, elapsed, devices);
    lemma_add_missing_facts(kept_timeouts(timeouts, elapsed, devices), devices);
}

/// A timeout whose device is still connected survives an update, with its
/// remaining time shortened by the time that passed (stopping at zero) and
/// its other settings unchanged.
pub proof fn lemma_update_advances_timeouts(
    timeouts: Seq<Timeout>,
    elapsed: TimeSpan,
    devices: Seq<BluetoothDevice>,
    k: int,
)
    requires
        0 <= k < timeouts.len(),
        connected_with(devices, timeouts[k].mac_address),
    ensures
        updated_timeouts(timeouts, elapsed, devices).contains(timeout_after(timeouts[k], elapsed)),
{
    let kept = kept_timeouts(timeouts, elapsed, devices);
    lemma_kept_facts(timeouts, elapsed, devices);
    lemma_add_missing_facts(kept, devices);
    let r = updated_timeouts(timeouts, elapsed, devices);
    let w = choose|w: int| 0 <= w < kept.len() && kept[w] == timeout_after(timeouts[k], elapsed);
    assert(r.take(kept.len() as int)[w] == r[w]);
    assert(r[w] == kept[w]);
}

/// A device connected without a timeout gets the default one, which removes
/// it when the application closes.
pub proof fn lemma_new_connections_get_default_timeout(
    timeouts: Seq<Timeout>,
    elapsed: TimeSpan,
    devices: Seq<BluetoothDevice>,
    k: int,
)
    requires
        0 <= k < updated_timeouts(timeouts, elapsed, devices).len(),
        !has_timeout_for(timeouts, updated_timeouts(timeouts, elapsed, devices)[k].mac_address),
    ensures
        updated_timeouts(timeouts, elapsed, devices)[k] == default_timeout(
            updated_timeouts(timeouts, elapsed, devices)[k].mac_address,
        ),
        updated_timeouts(timeouts, elapsed, devices)[k].remove_on_close,
{
    let kept = kept_timeouts(timeouts, elapsed, devices);
    lemma_kept_facts(timeouts, elapsed, devices);
    lemma_add_missing_facts(kept, devices);
    let r = updated_timeouts(timeouts, elapsed, devices);
    if k < kept.len() {
        assert(r.take(kept.len() as int)[k] == r[k]);
        assert(kept[k] == r[k]);
    }
}

/// A device that was connected without a timeout is removed when the
/// application closes, unless its timeout is changed first: the update gives
/// it a timeout that removes it on close.
pub proof fn lemma_new_connections_removed_on_exit(
    timeouts: Seq<Timeout>,
    elapsed: TimeSpan,
    devices: Seq<BluetoothDevice>,
    i: int,
)
    requires
        0 <= i < devices.len(),
        devices[i].connected,
        !has_timeout_for(timeouts, devices[i].mac_address),
    ensures
        exit_addresses(updated_timeouts(timeouts, elapsed, devices)).contains(devices[i].mac_address),
{
    let r = updated_timeouts(timeouts, elapsed, devices);
    let mac = devices[i].mac_address;
    lemma_timeouts_follow_connected_devices(timeouts, elapsed, devices);
    assert(devices[i].connected);
    let k = choose|k: int| 0 <= k < r.len() && #[trigger] r[k].mac_address == mac;
    lemma_new_connections_get_default_timeout(timeouts, elapsed, devices, k);
    let p = |t: Timeout| t.remove_on_close;
    r.lemma_filter_contains(p, k);
    let f = r.filter(p);
    let w = choose|w: int| 0 <= w < f.len() && f[w] == r[k];
    assert(f.map_values(|t: Timeout| t.mac_address)[w] == mac);
}

/// Whether a timeout's remaining time is shorter than `elapsed`.
pub open spec fn remaining_below(remaining: Option<TimeSpan>, elapsed: TimeSpan) -> bool {
    match remaining {
        Some(d) => d.total_nanos() < elapsed.total_nanos(),
        None => false,
    }
}

/// Whether some timeout for `mac` has a remaining time shorter than `elapsed`.
pub open spec fn has_expiring_timeout(timeouts: Seq<Timeout>, mac: MacAddress, elapsed: TimeSpan) -> bool {
    exists|k: int|
        0 <= k < timeouts.len() && #[trigger] timeouts[k].mac_address == mac && remaining_below(
            timeouts[k].duration,
            elapsed,
        )
}

/// `new` is `old` counted down by `elapsed`: no limit stays no limit, and a
/// remaining time of `d` becomes exactly `d - elapsed`, measured in
/// nanoseconds, or zero where `elapsed` is longer.
pub open spec fn counted_down(old: Option<TimeSpan>, new: Option<TimeSpan>, elapsed: TimeSpan) -> bool {
    match old {
        None => new is None,
        Some(d) => new matches Some(e) && e.wf() && e.total_nanos() == if d.total_nanos()
            >= elapsed.total_nanos() {
            d.total_nanos() - elapsed.total_nanos()
        } else {
            0
        },
    }
}

/// One step of a timeout counts its remaining time down by the whole elapsed
/// time and keeps its address and its remove-on-close setting.
pub proof fn lemma_timeout_counts_down(t: Timeout, elapsed: TimeSpan)
    requires
        t.wf(),
    ensures
        timeout_after(t, elapsed).mac_address == t.mac_address,
        timeout_after(t, elapsed).remove_on_close == t.remove_on_close,
        counted_down(t.duration, timeout_after(t, elapsed).duration, elapsed),
{
    if let Some(d) = t.duration {
        if d.total_nanos() >= elapsed.total_nanos() {
            lemma_from_total_nanos_total(d.total_nanos() - elapsed.total_nanos());
        }
    }
}

/// After an update, every timeout whose device is still connected is there,
/// with the same address and remove-on-close setting, and with its remaining
/// time counted down by exactly the elapsed time (stopping at zero).
pub proof fn lemma_surviving_timeouts_count_down(
    timeouts: Seq<Timeout>,
    elapsed: TimeSpan,
    devices: Seq<BluetoothDevice>,
    k: int,
)
    requires
        all_wf(timeouts),
        0 <= k < timeouts.len(),
        connected_with(devices, timeouts[k].mac_address),
    ensures
        exists|j: int|
            0 <= j < updated_timeouts(timeouts, elapsed, devices).len() && (
            #[trigger] updated_timeouts(timeouts, elapsed, devices)[j]).mac_address
                == timeouts[k].mac_address && updated_timeouts(timeouts, elapsed, devices)[j].remove_on_close
                == timeouts[k].remove_on_close && counted_down(
                timeouts[k].duration,
                updated_timeouts(timeouts, elapsed, devices)[j].duration,
                elapsed,
            ),
{
    let r = updated_timeouts(timeouts, elapsed, devices);
    lemma_update_advances_timeouts(timeouts, elapsed, devices, k);
    assert(timeouts[k].wf());
    lemma_timeout_counts_down(timeouts[k], elapsed);
    let j = choose|j: int| 0 <= j < r.len() && r[j] == timeout_after(timeouts[k], elapsed);
    assert(r[j] == timeout_after(timeouts[k], elapsed));
}

/// The devices removed in an update are exactly those of the timeouts whose
/// remaining time is shorter than the elapsed time.
pub proof fn lemma_expired_devices_removed(timeouts: Seq<Timeout>, elapsed: TimeSpan)
    ensures
        forall|k: int|
            0 <= k < timeouts.len() && remaining_below((#[trigger] timeouts[k]).duration, elapsed) ==> expired_addresses(
                timeouts,
                elapsed,
            ).contains(timeouts[k].mac_address),
        forall|i: int|
            0 <= i < expired_addresses(timeouts, elapsed).len() ==> has_expiring_timeout(
                timeouts,
                #[trigger] expired_addresses(timeouts, elapsed)[i],
                elapsed,
            ),
{
    let p = |t: Timeout| crate::app::expires_within(t, elapsed);
    let f = timeouts.filter(p);
    let e = expired_addresses(timeouts, elapsed);
    assert forall|k: int|
        0 <= k < timeouts.len() && remaining_below((#[trigger] timeouts[k]).duration, elapsed) implies e.contains(timeouts[k].mac_address) by {
        timeouts.lemma_filter_contains(p, k);
        let w = choose|w: int| 0 <= w < f.len() && f[w] == timeouts[k];
        assert(e[w] == timeouts[k].mac_address);
    }
    assert forall|i: int|
        0 <= i < expired_addresses(timeouts, elapsed).len() implies has_expiring_timeout(
            timeouts,
            #[trigger] expired_addresses(timeouts, elapsed)[i],
            elapsed,
        ) by {
        assert(e.len() == f.len());
        timeouts.lemma_filter_pred(p, i);
        assert(p(f[i]));
        assert(f.contains(f[i]));
        timeouts.lemma_filter_contains_rev(p, f[i]);
        assert(timeouts.contains(f[i]));
        let k = choose|k: int| 0 <= k < timeouts.len() && timeouts[k] == f[i];
        assert(timeouts[k].mac_address == e[i]);
        assert(remaining_below(timeouts[k].duration, elapsed));
        assert(0 <= k < timeouts.len() && timeouts[k].mac_address == expired_addresses(
            timeouts,
            elapsed,
        )[i] && remaining_below(timeouts[k].duration, elapsed));
    }
}

} // verus!
