//! Ordering devices by address, keeping devices with equal addresses in the
//! order they were found (a stable sort by key).

use vstd::prelude::*;
use crate::device::BluetoothDevice;

verus! {

/// Devices are in ascending order of address.
pub open spec fn sorted_by_address(devices: Seq<BluetoothDevice>) -> bool {
    forall|i: int, j: int|
        0 <= i <= j < devices.len() ==> (#[trigger] devices[i]).mac_address.value()
            <= (#[trigger] devices[j]).mac_address.value()
}

/// The devices whose address has the value `v`, in their order.
pub open spec fn with_address_value(devices: Seq<BluetoothDevice>, v: int) -> Seq<BluetoothDevice> {
    devices.filter(|d: BluetoothDevice| d.mac_address.value() == v)
}

/// `sorted` is the stable sort of `devices` by address: ordered by address,
/// and for each address the same devices in the same order. This determines
/// `sorted` uniquely.
pub open spec fn stable_sorted_by_address(
    sorted: Seq<BluetoothDevice>,
    devices: Seq<BluetoothDevice>,
) -> bool {
    &&& sorted_by_address(sorted)
    &&& forall|v: int| #[trigger] with_address_value(sorted, v) == with_address_value(devices, v)
}

proof fn lemma_filter_single(x: BluetoothDevice, v: int)
    ensures
        with_address_value(seq![x], v) == if x.mac_address.value() == v {
            seq![x]
        } else {
            Seq::<BluetoothDevice>::empty()
        },
{
    let p = |d: BluetoothDevice| d.mac_address.value() == v;
    let e = Seq::<BluetoothDevice>::empty();
    assert(e.filter(p) =~= e) by {
        reveal(Seq::filter);
    }
    e.lemma_filter_push(x, p);
    assert(e.push(x) =~= seq![x]);
}

proof fn lemma_filter_none(s: Seq<BluetoothDevice>, v: int)
    requires
        forall|i: int| 0 <= i < s.len() ==> (#[trigger] s[i]).mac_address.value() != v,
    ensures
        with_address_value(s, v) == Seq::<BluetoothDevice>::empty(),
{
    let p = |d: BluetoothDevice| d.mac_address.value() == v;
    assert(s.all(|x: BluetoothDevice| !p(x)));
    s.lemma_all_neg_filter_empty(p);
}

/// Sorts devices by address, stably.
pub fn sort_by_address(devices: Vec<BluetoothDevice>) -> (sorted: Vec<BluetoothDevice>)
    ensures
        stable_sorted_by_address(sorted@, devices@),
{
    let ghost all = devices@;
    let mut rest = devices;
    let mut sorted: Vec<BluetoothDevice> = Vec::new();
    while rest.len() > 0
        invariant
            rest@ == all.take(rest@.len() as int),
            rest@.len() <= all.len(),
            sorted_by_address(sorted@),
            forall|v: int| #[trigger] with_address_value(sorted@, v) == with_address_value(
                all.skip(rest@.len() as int),
                v,
            ),
        decreases rest@.len(),
    {
        let ghost n = rest@.len();
        let x = rest.pop().unwrap();
        let key = x.mac_address.key();
        let mut p: usize = 0;
        while p < sorted.len() && sorted[p].mac_address.key() < key
            invariant
                0 <= p <= sorted@.len(),
                forall|i: int| 0 <= i < p ==> (#[trigger] sorted@[i]).mac_address.value() < key,
            decreases sorted@.len() - p,
        {
            p = p + 1;
        }
        let ghost old_sorted = sorted@;
        sorted.insert(p, x);
        proof {
            assert(all.skip(n - 1) =~= seq![x] + all.skip(n as int));
            assert(rest@ =~= all.take(n - 1));
            let a = old_sorted.take(p as int);
            let b = old_sorted.skip(p as int);
            assert(old_sorted =~= a + b);
            assert(sorted@ =~= a + seq![x] + b);
            assert forall|v: int| #[trigger] with_address_value(sorted@, v) == with_address_value(
                all.skip(n - 1),
                v,
            ) by {
                let pr = |d: BluetoothDevice| d.mac_address.value() == v;
                Seq::filter_distributes_over_add(a + seq![x], b, pr);
                Seq::filter_distributes_over_add(a, seq![x], pr);
                Seq::filter_distributes_over_add(a, b, pr);
                Seq::filter_distributes_over_add(seq![x], all.skip(n as int), pr);
                lemma_filter_single(x, v);
                if x.mac_address.value() == v {
                    lemma_filter_none(a, v);
                    assert(with_address_value(sorted@, v) =~= seq![x] + with_address_value(b, v));
                    assert(with_address_value(old_sorted, v) =~= with_address_value(b, v));
                } else {
                    assert(with_address_value(sorted@, v) =~= with_address_value(old_sorted, v));
                }
            }
            assert forall|i: int, j: int| 0 <= i <= j < sorted@.len() implies (
            #[trigger] sorted@[i]).mac_address.value() <= (#[trigger] sorted@[j]).mac_address.value() by {
                if p < old_sorted.len() {
                    assert(key <= old_sorted[p as int].mac_address.value());
                }
                if i < p && j > p {
                    assert(sorted@[i] == old_sorted[i]);
                    assert(sorted@[j] == old_sorted[j - 1]);
                } else if i < p && j < p {
                    assert(sorted@[i] == old_sorted[i]);
                    assert(sorted@[j] == old_sorted[j]);
                } else if i > p {
                    assert(sorted@[i] == old_sorted[i - 1]);
                    assert(sorted@[j] == old_sorted[j - 1]);
                } else if i == p && j > p {
                    assert(sorted@[j] == old_sorted[j - 1]);
                    assert(old_sorted[p as int].mac_address.value() <= old_sorted[j - 1].mac_address.value());
                } else if i < p && j == p {
                    assert(sorted@[i] == old_sorted[i]);
                }
            }
        }
    }
    assert(all.skip(0) =~= all);
    sorted
}

proof fn lemma_filter_last(s: Seq<BluetoothDevice>, v: int)
    requires
        s.len() > 0,
    ensures
        with_address_value(s, v) == if s.last().mac_address.value() == v {
            with_address_value(s.drop_last(), v).push(s.last())
        } else {
            with_address_value(s.drop_last(), v)
        },
{
    let p = |d: BluetoothDevice| d.mac_address.value() == v;
    assert(s =~= s.drop_last().push(s.last()));
    s.drop_last().lemma_filter_push(s.last(), p);
}

proof fn lemma_value_present(s: Seq<BluetoothDevice>, i: int)
    requires
        0 <= i < s.len(),
    ensures
        with_address_value(s, s[i].mac_address.value()).len() > 0,
{
    let p = |d: BluetoothDevice| d.mac_address.value() == s[i].mac_address.value();
    s.lemma_filter_contains(p, i);
}

proof fn lemma_value_member(s: Seq<BluetoothDevice>, v: int)
    requires
        with_address_value(s, v).len() > 0,
    ensures
        exists|i: int| 0 <= i < s.len() && #[trigger] s[i].mac_address.value() == v,
{
    let p = |d: BluetoothDevice| d.mac_address.value() == v;
    let f = with_address_value(s, v);
    s.lemma_filter_pred(p, 0);
    s.lemma_filter_contains_rev(p, f[0]);
}

/// Sorting by address is deterministic: two stable sorts of the same
/// devices are the same sequence.
pub proof fn lemma_stable_sort_unique(
    a: Seq<BluetoothDevice>,
    b: Seq<BluetoothDevice>,
    devices: Seq<BluetoothDevice>,
)
    requires
        stable_sorted_by_address(a, devices),
        stable_sorted_by_address(b, devices),
    ensures
        a == b,
    decreases a.len() + b.len(),
{
    if a.len() == 0 || b.len() == 0 {
        if a.len() > 0 {
            lemma_value_present(a, 0);
            assert(with_address_value(a, a[0].mac_address.value()) == with_address_value(devices, a[0].mac_address.value()));
            assert(with_address_value(b, a[0].mac_address.value()) == with_address_value(devices, a[0].mac_address.value()));
            assert(with_address_value(b, a[0].mac_address.value()) =~= Seq::<BluetoothDevice>::empty()) by {
                reveal(Seq::filter);
            }
        } else if b.len() > 0 {
            lemma_value_present(b, 0);
            assert(with_address_value(a, b[0].mac_address.value()) == with_address_value(devices, b[0].mac_address.value()));
            assert(with_address_value(b, b[0].mac_address.value()) == with_address_value(devices, b[0].mac_address.value()));
            assert(with_address_value(a, b[0].mac_address.value()) =~= Seq::<BluetoothDevice>::empty()) by {
                reveal(Seq::filter);
            }
        } else {
            assert(a =~= b);
        }
    } else {
        let ma = a.last().mac_address.value();
        let mb = b.last().mac_address.value();
        assert(with_address_value(a, ma) == with_address_value(devices, ma));
        assert(with_address_value(b, ma) == with_address_value(devices, ma));
        assert(with_address_value(a, mb) == with_address_value(devices, mb));
        assert(with_address_value(b, mb) == with_address_value(devices, mb));
        lemma_value_present(a, a.len() - 1);
        lemma_value_present(b, b.len() - 1);
        lemma_value_member(b, ma);
        lemma_value_member(a, mb);
        let ib = choose|i: int| 0 <= i < b.len() && #[trigger] b[i].mac_address.value() == ma;
        let ia = choose|i: int| 0 <= i < a.len() && #[trigger] a[i].mac_address.value() == mb;
        assert(b[ib].mac_address.value() <= b[b.len() - 1].mac_address.value());
        assert(a[ia].mac_address.value() <= a[a.len() - 1].mac_address.value());
        assert(ma == mb);
        lemma_filter_last(a, ma);
        lemma_filter_last(b, ma);
        let fa = with_address_value(a, ma);
        let fb = with_address_value(b, ma);
        assert(fa == fb);
        assert(fa.last() == a.last());
        assert(fb.last() == b.last());
        assert(a.last() == b.last());
        let a2 = a.drop_last();
        let b2 = b.drop_last();
        assert forall|v: int| #[trigger] with_address_value(a2, v) == with_address_value(b2, v) by {
            lemma_filter_last(a, v);
            lemma_filter_last(b, v);
            assert(with_address_value(a, v) == with_address_value(devices, v));
            assert(with_address_value(b, v) == with_address_value(devices, v));
            if v == ma {
                assert(with_address_value(a2, v) =~= with_address_value(a, v).drop_last());
                assert(with_address_value(b2, v) =~= with_address_value(b, v).drop_last());
            }
        }
        assert(sorted_by_address(a2)) by {
            assert forall|i: int, j: int| 0 <= i <= j < a2.len() implies (#[trigger] a2[i]).mac_address.value()
                <= (#[trigger] a2[j]).mac_address.value() by {
                assert(a2[i] == a[i] && a2[j] == a[j]);
            }
        }
        assert(sorted_by_address(b2)) by {
            assert forall|i: int, j: int| 0 <= i <= j < b2.len() implies (#[trigger] b2[i]).mac_address.value()
                <= (#[trigger] b2[j]).mac_address.value() by {
                assert(b2[i] == b[i] && b2[j] == b[j]);
            }
        }
        lemma_stable_sort_unique(a2, b2, a2);
        assert(a =~= a2.push(a.last()));
        assert(b =~= b2.push(b.last()));
    }
}

} // verus!
