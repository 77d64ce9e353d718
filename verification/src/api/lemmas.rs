//! What holds of every enumeration: capacities are percentages, records that
//! share a serial number give one controller, and the identity keys do not
//! depend on what the probes read.

use crate::api::{
    controllers, decode_all, decoded, distinct_serials, group_of, keys, positions, pro_selection,
    probe_at, scanned_controllers, selected, serial_among, usb_controllers,
    with_missing_capacity, with_supplies, Group, PowerSupplyView, ProbeView,
};
use crate::controller::{ControllerView, HidDeviceInfoView, UdevDeviceView};
use vstd::prelude::*;

verus! {

/// A controller that a record decodes to has a capacity of at most 100.
pub proof fn lemma_decoded_wf(device: HidDeviceInfoView, probe: ProbeView)
    ensures
        decoded(device, probe) matches Ok(c) ==> c.wf(),
{
}

/// Consulting the power supplies keeps the capacity a percentage and leaves
/// the identity key as it was.
pub proof fn lemma_with_supplies(c: ControllerView, supplies: Seq<PowerSupplyView>, n: int)
    requires
        c.wf(),
    ensures
        with_supplies(c, supplies, n).wf(),
        with_supplies(c, supplies, n).id() == c.id(),
    decreases n,
{
    if n > 0 {
        lemma_with_supplies(c, supplies, n - 1);
    }
}

proof fn lemma_decode_all_wf(devices: Seq<HidDeviceInfoView>, probes: Seq<ProbeView>, at: Seq<int>)
    ensures
        forall|i: int|
            0 <= i < decode_all(devices, probes, at).len() ==> (#[trigger] decode_all(
                devices,
                probes,
                at,
            )[i]).wf(),
    decreases at.len(),
{
    if at.len() > 0 {
        let before = decode_all(devices, probes, at.drop_last());
        let all = decode_all(devices, probes, at);
        lemma_decode_all_wf(devices, probes, at.drop_last());
        lemma_decoded_wf(devices[at.last()], probe_at(probes, at.last()));
        assert forall|i: int| 0 <= i < all.len() implies (#[trigger] all[i]).wf() by {
            if i < before.len() {
                assert(all[i] == before[i]);
            }
        }
    }
}

proof fn lemma_usb_controllers_wf(devices: Seq<UdevDeviceView>, n: int)
    ensures
        forall|i: int|
            0 <= i < usb_controllers(devices, n).len() ==> (#[trigger] usb_controllers(
                devices,
                n,
            )[i]).wf(),
    decreases n,
{
    if n > 0 {
        let before = usb_controllers(devices, n - 1);
        let all = usb_controllers(devices, n);
        lemma_usb_controllers_wf(devices, n - 1);
        assert forall|i: int| 0 <= i < all.len() implies (#[trigger] all[i]).wf() by {
            if i < before.len() {
                assert(all[i] == before[i]);
            }
        }
    }
}

/// Every controller of an enumeration has a capacity between 0 and 100.
pub proof fn lemma_capacity_bounded(
    devices: Seq<HidDeviceInfoView>,
    probes: Seq<ProbeView>,
    usb_devices: Seq<UdevDeviceView>,
    supplies: Seq<PowerSupplyView>,
)
    ensures
        forall|i: int|
            0 <= i < controllers(devices, probes, usb_devices, supplies).len() ==> 0 <= (
            #[trigger] controllers(devices, probes, usb_devices, supplies)[i]).capacity <= 100,
{
    let scanned = scanned_controllers(devices, probes, usb_devices);
    lemma_decode_all_wf(devices, probes, selected(devices));
    lemma_usb_controllers_wf(usb_devices, usb_devices.len() as int);
    assert forall|i: int| 0 <= i < scanned.len() implies with_missing_capacity(
        #[trigger] scanned[i],
        supplies,
    ).wf() by {
        lemma_with_supplies(scanned[i], supplies, supplies.len() as int);
    }
}

/// The positions that a pass takes are positions of records.
pub proof fn lemma_positions_within(devices: Seq<HidDeviceInfoView>, group: Group, n: int)
    ensures
        forall|k: int|
            0 <= k < positions(devices, group, n).len() ==> 0 <= (#[trigger] positions(
                devices,
                group,
                n,
            )[k]) < n,
    decreases n,
{
    if n > 0 {
        let before = positions(devices, group, n - 1);
        let all = positions(devices, group, n);
        lemma_positions_within(devices, group, n - 1);
        assert forall|k: int| 0 <= k < all.len() implies 0 <= (#[trigger] all[k]) < n by {
            if k < before.len() {
                assert(all[k] == before[k]);
            }
        }
    }
}

/// Where every record before `n` belongs to the pass, the pass takes every
/// position; where none does, it takes none.
proof fn lemma_positions_all_or_none(devices: Seq<HidDeviceInfoView>, group: Group, n: int)
    requires
        0 <= n <= devices.len(),
    ensures
        (forall|i: int| 0 <= i < n ==> group_of(#[trigger] devices[i]) == group) ==> positions(
            devices,
            group,
            n,
        ) == Seq::new(n as nat, |i: int| i),
        (forall|i: int| 0 <= i < n ==> group_of(#[trigger] devices[i]) != group) ==> positions(
            devices,
            group,
            n,
        ) == Seq::<int>::empty(),
    decreases n,
{
    if n > 0 {
        lemma_positions_all_or_none(devices, group, n - 1);
        if forall|i: int| 0 <= i < n ==> group_of(#[trigger] devices[i]) == group {
            assert(Seq::new((n - 1) as nat, |i: int| i).push(n - 1) =~= Seq::new(
                n as nat,
                |i: int| i,
            ));
        }
    } else {
        assert(Seq::new(0nat, |i: int| i) =~= Seq::<int>::empty());
    }
}

/// After the repeated serial numbers are dropped, every position that stays
/// was there before, no two of them share a serial number, and the serial
/// number of every position that was there is among them.
pub proof fn lemma_distinct_serials(devices: Seq<HidDeviceInfoView>, at: Seq<int>)
    ensures
        forall|k: int|
            0 <= k < distinct_serials(devices, at).len() ==> at.contains(
                #[trigger] distinct_serials(devices, at)[k],
            ),
        forall|j: int, k: int|
            0 <= j < k < distinct_serials(devices, at).len() ==> devices[distinct_serials(
                devices,
                at,
            )[j]].serial_number != devices[distinct_serials(devices, at)[k]].serial_number,
        forall|i: int|
            0 <= i < at.len() ==> serial_among(
                devices,
                distinct_serials(devices, at),
                (#[trigger] devices[at[i]]).serial_number,
            ),
    decreases at.len(),
{
    if at.len() > 0 {
        let rest = at.drop_last();
        let kept = distinct_serials(devices, rest);
        let all = distinct_serials(devices, at);
        let serial = devices[at.last()].serial_number;
        lemma_distinct_serials(devices, rest);
        assert forall|k: int| 0 <= k < all.len() implies at.contains(#[trigger] all[k]) by {
            if k < kept.len() {
                assert(rest.contains(kept[k]));
                let w = choose|w: int| 0 <= w < rest.len() && rest[w] == kept[k];
                assert(at[w] == kept[k]);
            } else {
                assert(at[at.len() - 1] == all[k]);
            }
        }
        assert forall|j: int, k: int| 0 <= j < k < all.len() implies devices[all[j]].serial_number
            != devices[all[k]].serial_number by {
            if k >= kept.len() {
                assert(!serial_among(devices, kept, serial));
            }
        }
        assert forall|i: int| 0 <= i < at.len() implies serial_among(
            devices,
            all,
            (#[trigger] devices[at[i]]).serial_number,
        ) by {
            if i < rest.len() {
                assert(rest[i] == at[i]);
                assert(serial_among(devices, kept, devices[rest[i]].serial_number));
                let w = choose|w: int|
                    0 <= w < kept.len() && (#[trigger] devices[kept[w]]).serial_number
                        == devices[at[i]].serial_number;
                assert(all[w] == kept[w]);
            } else if serial_among(devices, kept, serial) {
            } else {
                assert(all[all.len() - 1] == at.last());
            }
        }
    }
}

/// Where all the positions are of records with one serial number, only the
/// first stays.
proof fn lemma_one_serial(devices: Seq<HidDeviceInfoView>, at: Seq<int>)
    requires
        at.len() >= 1,
        forall|i: int|
            0 <= i < at.len() ==> (#[trigger] devices[at[i]]).serial_number
                == devices[at[0]].serial_number,
    ensures
        distinct_serials(devices, at) == seq![at[0]],
    decreases at.len(),
{
    let rest = at.drop_last();
    if rest.len() == 0 {
        assert(distinct_serials(devices, rest) =~= Seq::<int>::empty());
        assert(at.last() == at[0]);
        assert(Seq::<int>::empty().push(at[0]) =~= seq![at[0]]);
    } else {
        assert forall|i: int| 0 <= i < rest.len() implies (#[trigger] devices[rest[i]]).serial_number
            == devices[rest[0]].serial_number by {
            assert(rest[i] == at[i]);
            assert(rest[0] == at[0]);
        }
        lemma_one_serial(devices, rest);
        let kept = distinct_serials(devices, rest);
        assert(kept[0] == at[0]);
        assert(devices[kept[0]].serial_number == devices[at[at.len() - 1]].serial_number);
    }
}

/// Xbox records that all share one serial number give exactly one
/// controller, and so do GuliKit records without an interface index: the
/// first of them is the one that is decoded.
pub proof fn lemma_shared_serial_one_controller(
    devices: Seq<HidDeviceInfoView>,
    probes: Seq<ProbeView>,
    group: Group,
)
    requires
        devices.len() >= 1,
        group == Group::Xbox || group == Group::GuliKit,
        forall|i: int| 0 <= i < devices.len() ==> group_of(#[trigger] devices[i]) == group,
        forall|i: int|
            0 <= i < devices.len() ==> (#[trigger] devices[i]).serial_number
                == devices[0].serial_number,
    ensures
        selected(devices) == seq![0int],
        decode_all(devices, probes, selected(devices)).len() == 1,
{
    let n = devices.len() as int;
    let all = Seq::new(n as nat, |i: int| i);
    lemma_positions_all_or_none(devices, Group::Nintendo, n);
    lemma_positions_all_or_none(devices, Group::Xbox, n);
    lemma_positions_all_or_none(devices, Group::GuliKit, n);
    lemma_positions_all_or_none(devices, Group::PlayStation, n);
    lemma_positions_all_or_none(devices, Group::Generic, n);
    assert(pro_selection(devices) == Seq::<int>::empty());
    assert(positions(devices, group, n) == all);
    assert forall|i: int| 0 <= i < all.len() implies (#[trigger] devices[all[i]]).serial_number
        == devices[all[0]].serial_number by {}
    lemma_one_serial(devices, all);
    assert(distinct_serials(devices, Seq::<int>::empty()) == Seq::<int>::empty());
    assert(selected(devices) =~= seq![0int]);
    let at = selected(devices);
    assert(at.drop_last() =~= Seq::<int>::empty());
    assert(decode_all(devices, probes, at.drop_last()).len() == 0);
    assert(decoded(devices[0], probe_at(probes, 0)) is Ok);
}

/// Where the Switch Pro Controller shows as three records and exactly one
/// of them has no interface index, that record is the one that is decoded.
pub proof fn lemma_pro_three_records(devices: Seq<HidDeviceInfoView>, k: int)
    requires
        positions(devices, Group::Nintendo, devices.len() as int).len() == 3,
        0 <= k < 3,
        forall|j: int|
            0 <= j < 3 ==> (devices[#[trigger] positions(
                devices,
                Group::Nintendo,
                devices.len() as int,
            )[j]].bluetooth() <==> j == k),
    ensures
        pro_selection(devices) == seq![positions(devices, Group::Nintendo, devices.len() as int)[k]],
{
    let at = positions(devices, Group::Nintendo, devices.len() as int);
    assert(devices[at[0]].bluetooth() <==> 0 == k);
    assert(devices[at[1]].bluetooth() <==> 1 == k);
    assert(devices[at[2]].bluetooth() <==> 2 == k);
}

/// The positions that are decoded are positions of records.
pub proof fn lemma_selected_within(devices: Seq<HidDeviceInfoView>)
    ensures
        forall|k: int|
            0 <= k < selected(devices).len() ==> 0 <= (#[trigger] selected(devices)[k])
                < devices.len(),
{
    let n = devices.len() as int;
    let pro = pro_selection(devices);
    let xbox_at = positions(devices, Group::Xbox, n);
    let gulikit_at = positions(devices, Group::GuliKit, n);
    let xbox = distinct_serials(devices, xbox_at);
    let gulikit = distinct_serials(devices, gulikit_at);
    let playstation = positions(devices, Group::PlayStation, n);
    let generic = positions(devices, Group::Generic, n);
    lemma_positions_within(devices, Group::Nintendo, n);
    lemma_positions_within(devices, Group::Xbox, n);
    lemma_positions_within(devices, Group::GuliKit, n);
    lemma_positions_within(devices, Group::PlayStation, n);
    lemma_positions_within(devices, Group::Generic, n);
    lemma_distinct_serials(devices, xbox_at);
    lemma_distinct_serials(devices, gulikit_at);
    assert forall|k: int| 0 <= k < xbox.len() implies 0 <= (#[trigger] xbox[k]) < n by {
        assert(xbox_at.contains(xbox[k]));
    }
    assert forall|k: int| 0 <= k < gulikit.len() implies 0 <= (#[trigger] gulikit[k]) < n by {
        assert(gulikit_at.contains(gulikit[k]));
    }
    assert forall|k: int| 0 <= k < pro.len() implies 0 <= (#[trigger] pro[k]) < n by {}
}

proof fn lemma_decode_all_keys(
    devices: Seq<HidDeviceInfoView>,
    probes: Seq<ProbeView>,
    others: Seq<ProbeView>,
    at: Seq<int>,
)
    requires
        forall|k: int| 0 <= k < at.len() ==> 0 <= (#[trigger] at[k]) < devices.len(),
        forall|i: int|
            0 <= i < devices.len() ==> (decoded(#[trigger] devices[i], probe_at(probes, i)) is Ok
                <==> decoded(devices[i], probe_at(others, i)) is Ok),
    ensures
        keys(decode_all(devices, probes, at)) == keys(decode_all(devices, others, at)),
    decreases at.len(),
{
    if at.len() > 0 {
        let rest = at.drop_last();
        assert forall|k: int| 0 <= k < rest.len() implies 0 <= (#[trigger] rest[k])
            < devices.len() by {
            assert(rest[k] == at[k]);
        }
        lemma_decode_all_keys(devices, probes, others, rest);
        let i = at.last();
        assert(i == at[at.len() - 1]);
        let a = decode_all(devices, probes, rest);
        let b = decode_all(devices, others, rest);
        assert(keys(a) == keys(b));
        assert(a.len() == keys(a).len());
        assert(b.len() == keys(b).len());
        let x = decoded(devices[i], probe_at(probes, i));
        let y = decoded(devices[i], probe_at(others, i));
        if x is Ok {
            assert(x.unwrap().id() == y.unwrap().id());
            assert(keys(a.push(x.unwrap())) =~= keys(a).push(x.unwrap().id()));
            assert(keys(b.push(y.unwrap())) =~= keys(b).push(y.unwrap().id()));
        }
    } else {
        assert(keys(decode_all(devices, probes, at)) =~= keys(decode_all(devices, others, at)));
    }
}

/// Two enumerations of the same records give the same identity keys in the
/// same order, whatever the probes and the power supplies held, as long as
/// the same devices could be read.
pub proof fn lemma_keys_stable(
    devices: Seq<HidDeviceInfoView>,
    usb_devices: Seq<UdevDeviceView>,
    probes: Seq<ProbeView>,
    supplies: Seq<PowerSupplyView>,
    other_probes: Seq<ProbeView>,
    other_supplies: Seq<PowerSupplyView>,
)
    requires
        forall|i: int|
            0 <= i < devices.len() ==> (decoded(#[trigger] devices[i], probe_at(probes, i)) is Ok
                <==> decoded(devices[i], probe_at(other_probes, i)) is Ok),
    ensures
        keys(controllers(devices, probes, usb_devices, supplies)) == keys(
            controllers(devices, other_probes, usb_devices, other_supplies),
        ),
{
    let usb = usb_controllers(usb_devices, usb_devices.len() as int);
    let a = decode_all(devices, probes, selected(devices));
    let b = decode_all(devices, other_probes, selected(devices));
    lemma_selected_within(devices);
    lemma_decode_all_keys(devices, probes, other_probes, selected(devices));
    lemma_decode_all_wf(devices, probes, selected(devices));
    lemma_decode_all_wf(devices, other_probes, selected(devices));
    lemma_usb_controllers_wf(usb_devices, usb_devices.len() as int);
    assert(a.len() == keys(a).len());
    assert(b.len() == keys(b).len());
    let first = controllers(devices, probes, usb_devices, supplies);
    let second = controllers(devices, other_probes, usb_devices, other_supplies);
    assert forall|i: int| 0 <= i < first.len() implies keys(first)[i] == keys(second)[i] by {
        lemma_with_supplies((a + usb)[i], supplies, supplies.len() as int);
        lemma_with_supplies((b + usb)[i], other_supplies, other_supplies.len() as int);
        if i < a.len() {
            assert(keys(a)[i] == keys(b)[i]);
        }
    }
    assert(keys(first) =~= keys(second));
}

} // verus!
