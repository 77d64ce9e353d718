//! Enumeration: which records of the two scans stand for a controller, which
//! decoder reads each, and the list of controllers that results.
//!
//! Reading devices is left to the caller. The library says which records to
//! probe and how (`select_devices`, `probe_request`), and turns the records
//! and what the probes returned into controllers (`get_controllers`).

pub mod bluetooth;
pub mod generic;
pub mod gulikit;
pub mod lemmas;
pub mod nintendo;
pub mod playstation;
pub mod xbox;

use crate::api::generic::{generic_controller, is_ignored, is_ignored_vendor};
use crate::api::gulikit::gulikit_controller;
use crate::api::nintendo::{
    pro_controller, was_opened, INPUT_REPORT_SIZE, INPUT_REPORT_TIMEOUT_MS,
    PRODUCT_ID_NINTENDO_PROCON, VENDOR_ID_NINTENDO,
};
use crate::api::playstation::{
    decoded_as, dualsense_controller, dualshock3_controller, dualshock_controller,
    DS3_INPUT_REPORT_SIZE, DS3_INPUT_REPORT_TIMEOUT_MS, DS3_PRODUCT_ID, DS4_INPUT_REPORT_BT_SIZE,
    DS4_NEW_PRODUCT_ID, DS4_OLD_PRODUCT_ID, DS_EDGE_PRODUCT_ID, DS_INPUT_REPORT_BT_SIZE,
    DS_PRODUCT_ID, DS_VENDOR_ID,
};
use crate::api::xbox::{
    assumed_battery, is_xbox_controller, is_xbox_product, is_xbox_product_id,
    update_xbox_controller, xbox_controller, xbox_name, MS_VENDOR_ID,
};
use crate::controller::{
    clamp_capacity, controller_views, text_of, Controller, ControllerView, HidDeviceInfo,
    HidDeviceInfoView, Status, UdevDevice, UdevDeviceView, FULL_CAPACITY,
};
use crate::text::{parse_unsigned, read_unsigned, trim, trim_bytes};
use vstd::prelude::*;
use vstd::string::*;

verus! {

/// Why a device gave no controller: it could not be opened, or reading its
/// report failed.
#[derive(Debug, Clone, Copy, PartialEq, Eq, Structural)]
pub enum DeviceAccessError {
    OpenFailed,
    ReadFailed,
}

/// What was learned from a device after it was selected: the outcome of
/// opening it and reading one input report, or the answer of the Bluetooth
/// utility for its address.
#[derive(Debug)]
pub enum Probe {
    /// The device was not opened.
    Unavailable,
    /// The device was opened and reading from it failed.
    ReadFailed,
    /// The bytes that one read returned; none when the read timed out.
    Report(Vec<u8>),
    /// What the Bluetooth utility printed for the device's address.
    BluetoothInfo(Vec<u8>),
}

/// What a `Probe` holds, with its bytes as sequences.
pub enum ProbeView {
    Unavailable,
    ReadFailed,
    Report(Seq<u8>),
    BluetoothInfo(Seq<u8>),
}

impl View for Probe {
    type V = ProbeView;

    open spec fn view(&self) -> ProbeView {
        match self {
            Probe::Unavailable => ProbeView::Unavailable,
            Probe::ReadFailed => ProbeView::ReadFailed,
            Probe::Report(data) => ProbeView::Report(data@),
            Probe::BluetoothInfo(text) => ProbeView::BluetoothInfo(text@),
        }
    }
}

/// What to do with a selected device before it can be decoded.
#[derive(Debug, Clone, Copy, PartialEq, Eq, Structural)]
pub enum ProbeRequest {
    /// Nothing: the record alone describes the controller.
    Nothing,
    /// Open the device and read one input report into a buffer of `size`
    /// bytes, waiting `timeout_ms` milliseconds, or without limit where that
    /// is negative.
    Report { size: usize, timeout_ms: i32 },
    /// Ask the Bluetooth utility about the device's hardware address.
    BluetoothInfo,
}

/// The decoder that reads a device.
#[derive(Debug, Clone, Copy, PartialEq, Eq, Structural)]
pub enum Family {
    SwitchPro,
    Xbox,
    GuliKit,
    DualSense,
    DualSenseEdge,
    DualShock4,
    DualShock3,
    Generic,
}

/// The pass of the enumeration that takes a record, if any does.
#[derive(Debug, Clone, Copy, PartialEq, Eq, Structural)]
pub enum Group {
    Nintendo,
    Xbox,
    GuliKit,
    PlayStation,
    Generic,
    Ignored,
}

/// The battery of a hidraw device as the operating system reports it: the
/// device node, and the text of the capacity file where it could be read.
#[derive(Debug)]
pub struct PowerSupply {
    pub devnode: String,
    pub capacity: Option<Vec<u8>>,
}

/// What a `PowerSupply` holds.
pub struct PowerSupplyView {
    pub devnode: Seq<char>,
    pub capacity: Option<Seq<u8>>,
}

impl View for PowerSupply {
    type V = PowerSupplyView;

    open spec fn view(&self) -> PowerSupplyView {
        PowerSupplyView {
            devnode: self.devnode@,
            capacity: match self.capacity {
                Some(text) => Some(text@),
                None => None,
            },
        }
    }
}

/// A wait without limit.
pub const NO_TIMEOUT: i32 = -1;

pub open spec fn device_views(v: Seq<HidDeviceInfo>) -> Seq<HidDeviceInfoView> {
    Seq::new(v.len(), |i: int| v[i]@)
}

pub open spec fn probe_views(v: Seq<Probe>) -> Seq<ProbeView> {
    Seq::new(v.len(), |i: int| v[i]@)
}

pub open spec fn udev_views(v: Seq<UdevDevice>) -> Seq<UdevDeviceView> {
    Seq::new(v.len(), |i: int| v[i]@)
}

pub open spec fn supply_views(v: Seq<PowerSupply>) -> Seq<PowerSupplyView> {
    Seq::new(v.len(), |i: int| v[i]@)
}

pub open spec fn as_ints(v: Seq<usize>) -> Seq<int> {
    Seq::new(v.len(), |i: int| v[i] as int)
}

/// The decoder for a vendor and product identifier. Every pair that no
/// decoder claims falls to the generic one.
pub open spec fn family_of(vendor_id: u16, product_id: u16) -> Family {
    if vendor_id == VENDOR_ID_NINTENDO && product_id == PRODUCT_ID_NINTENDO_PROCON {
        Family::SwitchPro
    } else if vendor_id == MS_VENDOR_ID && is_xbox_product(product_id) {
        Family::Xbox
    } else if vendor_id == gulikit::VENDOR_ID && product_id == gulikit::PRODUCT_ID {
        Family::GuliKit
    } else if vendor_id == DS_VENDOR_ID && product_id == DS_PRODUCT_ID {
        Family::DualSense
    } else if vendor_id == DS_VENDOR_ID && product_id == DS_EDGE_PRODUCT_ID {
        Family::DualSenseEdge
    } else if vendor_id == DS_VENDOR_ID && (product_id == DS4_OLD_PRODUCT_ID || product_id
        == DS4_NEW_PRODUCT_ID) {
        Family::DualShock4
    } else if vendor_id == DS_VENDOR_ID && product_id == DS3_PRODUCT_ID {
        Family::DualShock3
    } else {
        Family::Generic
    }
}

/// The pass that takes a record. Of the GuliKit records only those without
/// an interface index are taken, and of the records without a decoder of
/// their own only those whose vendor is not ignored.
pub open spec fn group_of(device: HidDeviceInfoView) -> Group {
    match family_of(device.vendor_id, device.product_id) {
        Family::SwitchPro => Group::Nintendo,
        Family::Xbox => Group::Xbox,
        Family::GuliKit => if device.bluetooth() {
            Group::GuliKit
        } else {
            Group::Ignored
        },
        Family::DualSense | Family::DualSenseEdge | Family::DualShock4 | Family::DualShock3 =>
            Group::PlayStation,
        Family::Generic => if is_ignored_vendor(device.vendor_id) {
            Group::Ignored
        } else {
            Group::Generic
        },
    }
}

/// What a family needs before its decoder can run.
pub open spec fn request_for(family: Family) -> ProbeRequest {
    match family {
        Family::SwitchPro => ProbeRequest::Report {
            size: INPUT_REPORT_SIZE,
            timeout_ms: INPUT_REPORT_TIMEOUT_MS,
        },
        Family::Xbox | Family::Generic => ProbeRequest::BluetoothInfo,
        Family::GuliKit => ProbeRequest::Nothing,
        Family::DualSense | Family::DualSenseEdge => ProbeRequest::Report {
            size: DS_INPUT_REPORT_BT_SIZE,
            timeout_ms: NO_TIMEOUT,
        },
        Family::DualShock4 => ProbeRequest::Report {
            size: DS4_INPUT_REPORT_BT_SIZE,
            timeout_ms: NO_TIMEOUT,
        },
        Family::DualShock3 => ProbeRequest::Report {
            size: DS3_INPUT_REPORT_SIZE,
            timeout_ms: DS3_INPUT_REPORT_TIMEOUT_MS,
        },
    }
}

/// The positions below `n` of the records that a pass takes, in order.
pub open spec fn positions(devices: Seq<HidDeviceInfoView>, group: Group, n: int) -> Seq<int>
    decreases n,
{
    if n <= 0 {
        Seq::empty()
    } else {
        let before = positions(devices, group, n - 1);
        if group_of(devices[n - 1]) == group {
            before.push(n - 1)
        } else {
            before
        }
    }
}

/// Whether one of the records at the positions `kept` has the serial number
/// `serial`. Records without a serial number share the lack of one.
pub open spec fn serial_among(
    devices: Seq<HidDeviceInfoView>,
    kept: Seq<int>,
    serial: Option<Seq<char>>,
) -> bool {
    exists|k: int| 0 <= k < kept.len() && (#[trigger] devices[kept[k]]).serial_number == serial
}

/// The positions `at` without those whose record has the serial number of a
/// record before it: of the records that share a serial number, the first
/// stays.
pub open spec fn distinct_serials(devices: Seq<HidDeviceInfoView>, at: Seq<int>) -> Seq<int>
    decreases at.len(),
{
    if at.len() == 0 {
        Seq::empty()
    } else {
        let kept = distinct_serials(devices, at.drop_last());
        if serial_among(devices, kept, devices[at.last()].serial_number) {
            kept
        } else {
            kept.push(at.last())
        }
    }
}

/// The record that stands for the Switch Pro Controller. One pad shows as
/// one record on Bluetooth, as two on a cable, which say the same, and as
/// three on both at once, of which only the one without an interface index
/// carries the battery state. Any other number of records gives nothing.
pub open spec fn pro_selection(devices: Seq<HidDeviceInfoView>) -> Seq<int> {
    let at = positions(devices, Group::Nintendo, devices.len() as int);
    if at.len() == 1 || at.len() == 2 {
        seq![at[0]]
    } else if at.len() == 3 {
        if devices[at[0]].bluetooth() {
            seq![at[0]]
        } else if devices[at[1]].bluetooth() {
            seq![at[1]]
        } else if devices[at[2]].bluetooth() {
            seq![at[2]]
        } else {
            Seq::empty()
        }
    } else {
        Seq::empty()
    }
}

/// The positions of the records that are decoded, in the order in which
/// their controllers are listed: the Switch Pro Controller, the Xbox
/// controllers, the GuliKit controllers, the PlayStation controllers, and
/// the controllers of other vendors.
pub open spec fn selected(devices: Seq<HidDeviceInfoView>) -> Seq<int> {
    let n = devices.len() as int;
    pro_selection(devices) + distinct_serials(devices, positions(devices, Group::Xbox, n))
        + distinct_serials(devices, positions(devices, Group::GuliKit, n)) + positions(
        devices,
        Group::PlayStation,
        n,
    ) + positions(devices, Group::Generic, n)
}

/// The controller that a record and its probe give, or the error that kept
/// the device from being read.
pub open spec fn decoded(device: HidDeviceInfoView, probe: ProbeView) -> Result<
    ControllerView,
    DeviceAccessError,
> {
    match family_of(device.vendor_id, device.product_id) {
        Family::SwitchPro => if was_opened(probe) {
            Ok(pro_controller(device, probe))
        } else {
            Err(DeviceAccessError::OpenFailed)
        },
        Family::Xbox => Ok(xbox_controller(device, probe)),
        Family::GuliKit => Ok(gulikit_controller(device)),
        Family::DualSense => dualsense_controller(device, probe, "DualSense"@),
        Family::DualSenseEdge => dualsense_controller(device, probe, "DualSense Edge"@),
        Family::DualShock4 => dualshock_controller(device, probe),
        Family::DualShock3 => dualshock3_controller(device, probe, "DualShock 3"@),
        Family::Generic => Ok(generic_controller(device, probe)),
    }
}

/// The probe of the record at position `i`. A record without a probe was
/// not opened.
pub open spec fn probe_at(probes: Seq<ProbeView>, i: int) -> ProbeView {
    if 0 <= i < probes.len() {
        probes[i]
    } else {
        ProbeView::Unavailable
    }
}

/// The controllers that the records at the positions `at` give, in that
/// order. A record whose device could not be read gives none.
pub open spec fn decode_all(
    devices: Seq<HidDeviceInfoView>,
    probes: Seq<ProbeView>,
    at: Seq<int>,
) -> Seq<ControllerView>
    decreases at.len(),
{
    if at.len() == 0 {
        Seq::empty()
    } else {
        let before = decode_all(devices, probes, at.drop_last());
        match decoded(devices[at.last()], probe_at(probes, at.last())) {
            Ok(c) => before.push(c),
            Err(_) => before,
        }
    }
}

/// The Xbox controller that a record of the USB scan stands for, if it is
/// one: its vendor and product identifier are those of a known Xbox
/// controller. It is on a cable, so it counts as full and charging.
pub open spec fn usb_controller(device: UdevDeviceView) -> Option<ControllerView> {
    let c = device.controller("Xbox Unknown"@, 0, Status::Unknown, false);
    if c.vendor_id == MS_VENDOR_ID && is_xbox_product(c.product_id) {
        Some(
            ControllerView {
                name: xbox_name(c.product_id),
                ..c.with_battery(assumed_battery(false))
            },
        )
    } else {
        None
    }
}

/// The Xbox controllers among the first `n` records of the USB scan.
pub open spec fn usb_controllers(devices: Seq<UdevDeviceView>, n: int) -> Seq<ControllerView>
    decreases n,
{
    if n <= 0 {
        Seq::empty()
    } else {
        let before = usb_controllers(devices, n - 1);
        match usb_controller(devices[n - 1]) {
            Some(c) => before.push(c),
            None => before,
        }
    }
}

/// The capacity that the text of a capacity file gives: a decimal number
/// of one byte with white space around it, at most 100.
pub open spec fn supply_capacity(text: Seq<u8>) -> Option<u8> {
    match parse_unsigned(trim(text), 10, 255) {
        Some(v) => Some(clamp_capacity(v as int)),
        None => None,
    }
}

/// The capacity that a power supply gives for a device node, if it is the
/// battery of that node and its capacity could be read.
pub open spec fn supply_reading(supply: PowerSupplyView, devnode: Seq<char>) -> Option<u8> {
    if supply.devnode == devnode && supply.capacity is Some {
        supply_capacity(supply.capacity.unwrap())
    } else {
        None
    }
}

/// A controller after the first `n` power supplies were looked at: each
/// that is the battery of the controller's device node sets the capacity,
/// and a status that was unknown becomes discharging.
pub open spec fn with_supplies(c: ControllerView, supplies: Seq<PowerSupplyView>, n: int)
    -> ControllerView
    decreases n,
{
    if n <= 0 {
        c
    } else {
        let before = with_supplies(c, supplies, n - 1);
        match supply_reading(supplies[n - 1], c.device_path.unwrap()) {
            Some(capacity) => ControllerView {
                capacity,
                status: if before.status == Status::Unknown {
                    Status::Discharging
                } else {
                    before.status
                },
                ..before
            },
            None => before,
        }
    }
}

/// A controller after the power supplies were consulted. Only a controller
/// whose capacity is 0 and that has a device path asks them.
pub open spec fn with_missing_capacity(c: ControllerView, supplies: Seq<PowerSupplyView>)
    -> ControllerView {
    if c.capacity == 0 && c.device_path is Some {
        with_supplies(c, supplies, supplies.len() as int)
    } else {
        c
    }
}

/// The controllers that both scans give, before the power supplies are
/// consulted: those of the HID enumeration, then those of the USB scan.
pub open spec fn scanned_controllers(
    devices: Seq<HidDeviceInfoView>,
    probes: Seq<ProbeView>,
    usb_devices: Seq<UdevDeviceView>,
) -> Seq<ControllerView> {
    decode_all(devices, probes, selected(devices)) + usb_controllers(
        usb_devices,
        usb_devices.len() as int,
    )
}

/// The list of controllers for the records of both scans, the probes of
/// the HID records and the power supplies of the hidraw devices.
pub open spec fn controllers(
    devices: Seq<HidDeviceInfoView>,
    probes: Seq<ProbeView>,
    usb_devices: Seq<UdevDeviceView>,
    supplies: Seq<PowerSupplyView>,
) -> Seq<ControllerView> {
    let scanned = scanned_controllers(devices, probes, usb_devices);
    Seq::new(scanned.len(), |i: int| with_missing_capacity(scanned[i], supplies))
}

/// The identity keys of a list of controllers.
pub open spec fn keys(cs: Seq<ControllerView>) -> Seq<Seq<char>> {
    Seq::new(cs.len(), |i: int| cs[i].id())
}

/// The decoder that reads a device.
pub fn classify(device_info: &HidDeviceInfo) -> (r: Family)
    ensures
        r == family_of(device_info.vendor_id, device_info.product_id),
{
    let vendor_id = device_info.vendor_id;
    let product_id = device_info.product_id;
    if vendor_id == VENDOR_ID_NINTENDO && product_id == PRODUCT_ID_NINTENDO_PROCON {
        Family::SwitchPro
    } else if is_xbox_controller(vendor_id) && is_xbox_product_id(product_id) {
        Family::Xbox
    } else if vendor_id == gulikit::VENDOR_ID && product_id == gulikit::PRODUCT_ID {
        Family::GuliKit
    } else if vendor_id == DS_VENDOR_ID && product_id == DS_PRODUCT_ID {
        Family::DualSense
    } else if vendor_id == DS_VENDOR_ID && product_id == DS_EDGE_PRODUCT_ID {
        Family::DualSenseEdge
    } else if vendor_id == DS_VENDOR_ID && (product_id == DS4_OLD_PRODUCT_ID || product_id
        == DS4_NEW_PRODUCT_ID) {
        Family::DualShock4
    } else if vendor_id == DS_VENDOR_ID && product_id == DS3_PRODUCT_ID {
        Family::DualShock3
    } else {
        Family::Generic
    }
}

/// The pass of the enumeration that takes a record.
pub fn group(device_info: &HidDeviceInfo) -> (r: Group)
    ensures
        r == group_of(device_info@),
{
    match classify(device_info) {
        Family::SwitchPro => Group::Nintendo,
        Family::Xbox => Group::Xbox,
        Family::GuliKit => if device_info.interface_number == crate::controller::NO_INTERFACE {
            Group::GuliKit
        } else {
            Group::Ignored
        },
        Family::DualSense | Family::DualSenseEdge | Family::DualShock4 | Family::DualShock3 =>
            Group::PlayStation,
        Family::Generic => if is_ignored(device_info.vendor_id) {
            Group::Ignored
        } else {
            Group::Generic
        },
    }
}

/// What has to be done with a device before it can be decoded.
pub fn probe_request(device_info: &HidDeviceInfo) -> (r: ProbeRequest)
    ensures
        r == request_for(family_of(device_info.vendor_id, device_info.product_id)),
{
    match classify(device_info) {
        Family::SwitchPro => ProbeRequest::Report {
            size: INPUT_REPORT_SIZE,
            timeout_ms: INPUT_REPORT_TIMEOUT_MS,
        },
        Family::Xbox | Family::Generic => ProbeRequest::BluetoothInfo,
        Family::GuliKit => ProbeRequest::Nothing,
        Family::DualSense | Family::DualSenseEdge => ProbeRequest::Report {
            size: DS_INPUT_REPORT_BT_SIZE,
            timeout_ms: NO_TIMEOUT,
        },
        Family::DualShock4 => ProbeRequest::Report {
            size: DS4_INPUT_REPORT_BT_SIZE,
            timeout_ms: NO_TIMEOUT,
        },
        Family::DualShock3 => ProbeRequest::Report {
            size: DS3_INPUT_REPORT_SIZE,
            timeout_ms: DS3_INPUT_REPORT_TIMEOUT_MS,
        },
    }
}

/// Every position is one of a record.
pub open spec fn within(at: Seq<usize>, n: int) -> bool {
    forall|k: int| 0 <= k < at.len() ==> at[k] < n
}

/// The positions of the records that a pass takes.
fn positions_of(devices: &Vec<HidDeviceInfo>, wanted: Group) -> (r: Vec<usize>)
    ensures
        as_ints(r@) == positions(device_views(devices@), wanted, devices@.len() as int),
        within(r@, devices@.len() as int),
{
    let mut out: Vec<usize> = Vec::new();
    let mut i: usize = 0;
    assert(as_ints(out@) =~= Seq::<int>::empty());
    while i < devices.len()
        invariant
            i <= devices@.len(),
            as_ints(out@) == positions(device_views(devices@), wanted, i as int),
            within(out@, devices@.len() as int),
        decreases devices@.len() - i,
    {
        if group(&devices[i]) == wanted {
            let ghost before = out@;
            out.push(i);
            assert(as_ints(out@) =~= as_ints(before).push(i as int));
        }
        i += 1;
    }
    out
}

/// Whether two records have the same serial number, or both none.
fn same_serial(a: &Option<String>, b: &Option<String>) -> (r: bool)
    ensures
        r == (text_of(*a) == text_of(*b)),
{
    match (a, b) {
        (Some(x), Some(y)) => *x == *y,
        (None, None) => true,
        _ => false,
    }
}

/// Drops the positions whose record repeats the serial number of a record
/// before it.
fn without_repeated_serials(devices: &Vec<HidDeviceInfo>, at: &Vec<usize>) -> (r: Vec<usize>)
    requires
        within(at@, devices@.len() as int),
    ensures
        as_ints(r@) == distinct_serials(device_views(devices@), as_ints(at@)),
        within(r@, devices@.len() as int),
{
    let ghost views = device_views(devices@);
    let mut kept: Vec<usize> = Vec::new();
    let mut i: usize = 0;
    assert(as_ints(kept@) =~= Seq::<int>::empty());
    assert(as_ints(at@).take(0) =~= Seq::<int>::empty());
    while i < at.len()
        invariant
            i <= at@.len(),
            views == device_views(devices@),
            within(at@, devices@.len() as int),
            within(kept@, devices@.len() as int),
            as_ints(kept@) == distinct_serials(views, as_ints(at@).take(i as int)),
        decreases at@.len() - i,
    {
        let candidate = at[i];
        let ghost serial = views[candidate as int].serial_number;
        let mut known = false;
        let mut k: usize = 0;
        while k < kept.len() && !known
            invariant
                k <= kept@.len(),
                views == device_views(devices@),
                candidate < devices@.len(),
                serial == views[candidate as int].serial_number,
                within(kept@, devices@.len() as int),
                !known ==> forall|j: int|
                    0 <= j < k ==> (#[trigger] views[as_ints(kept@)[j]]).serial_number != serial,
                known ==> serial_among(views, as_ints(kept@), serial),
            decreases kept@.len() - k + (if known { 0int } else { 1int }),
        {
            if same_serial(&devices[kept[k]].serial_number, &devices[candidate].serial_number) {
                known = true;
                assert(views[as_ints(kept@)[k as int]].serial_number == serial);
            } else {
                k += 1;
            }
        }
        proof {
            let next = as_ints(at@).take(i + 1);
            assert(next.drop_last() =~= as_ints(at@).take(i as int));
            assert(next.last() == candidate);
        }
        if !known {
            let ghost before = kept@;
            kept.push(candidate);
            assert(as_ints(kept@) =~= as_ints(before).push(candidate as int));
        }
        i += 1;
    }
    assert(as_ints(at@).take(i as int) =~= as_ints(at@));
    kept
}

/// Appends the positions `src` to `dst`.
fn push_all(dst: &mut Vec<usize>, src: &Vec<usize>)
    ensures
        final(dst)@ == old(dst)@ + src@,
{
    let mut i: usize = 0;
    assert(dst@ =~= old(dst)@ + src@.take(0));
    while i < src.len()
        invariant
            i <= src@.len(),
            dst@ == old(dst)@ + src@.take(i as int),
        decreases src@.len() - i,
    {
        dst.push(src[i]);
        i += 1;
        assert(dst@ =~= old(dst)@ + src@.take(i as int));
    }
    assert(src@.take(i as int) =~= src@);
}

/// The record that stands for the Switch Pro Controller, if there is one.
fn select_pro(devices: &Vec<HidDeviceInfo>) -> (r: Vec<usize>)
    ensures
        as_ints(r@) == pro_selection(device_views(devices@)),
        within(r@, devices@.len() as int),
{
    let at = positions_of(devices, Group::Nintendo);
    let mut out: Vec<usize> = Vec::new();
    let ghost ints = as_ints(at@);
    if at.len() == 1 || at.len() == 2 {
        assert(ints[0] == at@[0]);
        out.push(at[0]);
    } else if at.len() == 3 {
        assert(ints[0] == at@[0] && ints[1] == at@[1] && ints[2] == at@[2]);
        if devices[at[0]].interface_number == crate::controller::NO_INTERFACE {
            out.push(at[0]);
        } else if devices[at[1]].interface_number == crate::controller::NO_INTERFACE {
            out.push(at[1]);
        } else if devices[at[2]].interface_number == crate::controller::NO_INTERFACE {
            out.push(at[2]);
        }
    }
    assert(as_ints(out@) =~= pro_selection(device_views(devices@)));
    out
}

/// The positions of the records to probe and decode, in the order in which
/// their controllers are listed.
pub fn select_devices(devices: &Vec<HidDeviceInfo>) -> (r: Vec<usize>)
    ensures
        as_ints(r@) == selected(device_views(devices@)),
        within(r@, devices@.len() as int),
{
    let mut out = select_pro(devices);
    let xbox = without_repeated_serials(devices, &positions_of(devices, Group::Xbox));
    let gulikit = without_repeated_serials(devices, &positions_of(devices, Group::GuliKit));
    let playstation = positions_of(devices, Group::PlayStation);
    let generic = positions_of(devices, Group::Generic);
    let ghost pro = out@;
    push_all(&mut out, &xbox);
    push_all(&mut out, &gulikit);
    push_all(&mut out, &playstation);
    push_all(&mut out, &generic);
    proof {
        assert(out@ == pro + xbox@ + gulikit@ + playstation@ + generic@);
        assert(as_ints(out@) =~= as_ints(pro) + as_ints(xbox@) + as_ints(gulikit@) + as_ints(
            playstation@,
        ) + as_ints(generic@));
    }
    out
}

/// Decodes one record with the decoder of its family.
pub fn decode_device(device_info: &HidDeviceInfo, probe: &Probe) -> (r: Result<
    Controller,
    DeviceAccessError,
>)
    ensures
        decoded_as(r, decoded(device_info@, probe@)),
{
    match classify(device_info) {
        Family::SwitchPro => nintendo::parse_pro_controller_data(device_info, probe),
        Family::Xbox => xbox::parse_xbox_controller_data(device_info, probe),
        Family::GuliKit => gulikit::parse_controller_data(device_info),
        Family::DualSense => playstation::parse_dualsense_controller_data(
            device_info,
            probe,
            "DualSense",
        ),
        Family::DualSenseEdge => playstation::parse_dualsense_controller_data(
            device_info,
            probe,
            "DualSense Edge",
        ),
        Family::DualShock4 => playstation::parse_dualshock_controller_data(device_info, probe),
        Family::DualShock3 => playstation::parse_dualshock3_controller_data(
            device_info,
            probe,
            "DualShock 3",
        ),
        Family::Generic => generic::get_controller_data(device_info, probe),
    }
}

/// Reads the capacity from the text of a power supply's capacity file.
pub fn get_battery_capacity(capacity_text: &[u8]) -> (r: Option<u8>)
    ensures
        r == supply_capacity(capacity_text@),
        r matches Some(c) ==> c <= FULL_CAPACITY,
{
    let trimmed = trim_bytes(capacity_text);
    match read_unsigned(trimmed.as_slice(), 10, 255) {
        Some(v) => Some(
            if v >= FULL_CAPACITY as u32 {
                FULL_CAPACITY
            } else {
                v as u8
            },
        ),
        None => None,
    }
}

/// The battery reading of a controller after the power supplies were
/// consulted.
fn supplied_battery(controller: &Controller, supplies: &Vec<PowerSupply>) -> (r: (u8, Status))
    ensures
        with_missing_capacity(controller@, supply_views(supplies@)) == (ControllerView {
            capacity: r.0,
            status: r.1,
            ..controller@
        }),
        controller@.wf() ==> r.0 <= FULL_CAPACITY,
{
    let mut capacity = controller.capacity;
    let mut status = controller.status;
    if capacity != 0 {
        return (capacity, status);
    }
    match &controller.device_path {
        None => (capacity, status),
        Some(path) => {
            let ghost views = supply_views(supplies@);
            let mut i: usize = 0;
            while i < supplies.len()
                invariant
                    i <= supplies@.len(),
                    views == supply_views(supplies@),
                    controller@.device_path == Some(path@),
                    capacity <= FULL_CAPACITY,
                    with_supplies(controller@, views, i as int) == (ControllerView {
                        capacity,
                        status,
                        ..controller@
                    }),
                decreases supplies@.len() - i,
            {
                let supply = &supplies[i];
                assert(views[i as int] == supply@);
                if supply.devnode == *path {
                    match &supply.capacity {
                        Some(text) => match get_battery_capacity(text.as_slice()) {
                            Some(c) => {
                                capacity = c;
                                if status == Status::Unknown {
                                    status = Status::Discharging;
                                }
                            },
                            None => {},
                        },
                        None => {},
                    }
                }
                i += 1;
            }
            (capacity, status)
        },
    }
}

/// Fills in the capacity of the controllers that report none, from the
/// power supplies of their device nodes. A controller whose capacity is
/// set this way and whose status was unknown counts as discharging.
pub fn get_missing_battery_capacity(controllers: &mut Vec<Controller>, supplies: &Vec<PowerSupply>)
    ensures
        final(controllers)@.len() == old(controllers)@.len(),
        forall|i: int|
            0 <= i < old(controllers)@.len() ==> (#[trigger] final(controllers)@[i])@
                == with_missing_capacity(old(controllers)@[i]@, supply_views(supplies@)),
        forall|i: int|
            0 <= i < old(controllers)@.len() && old(controllers)@[i]@.wf() ==> (
            #[trigger] final(controllers)@[i])@.wf(),
{
    let mut i: usize = 0;
    while i < controllers.len()
        invariant
            i <= controllers@.len(),
            controllers@.len() == old(controllers)@.len(),
            forall|j: int|
                0 <= j < i ==> (#[trigger] controllers@[j])@ == with_missing_capacity(
                    old(controllers)@[j]@,
                    supply_views(supplies@),
                ),
            forall|j: int| i <= j < controllers@.len() ==> controllers@[j] == old(controllers)@[j],
            forall|j: int|
                0 <= j < i && old(controllers)@[j]@.wf() ==> (#[trigger] controllers@[j])@.wf(),
        decreases controllers@.len() - i,
    {
        let battery = supplied_battery(&controllers[i], supplies);
        controllers[i].capacity = battery.0;
        controllers[i].status = battery.1;
        i += 1;
    }
}

/// Builds the Xbox controller that a record of the USB scan stands for, if
/// it is one.
pub fn usb_xbox_controller(device: &UdevDevice) -> (r: Option<Controller>)
    ensures
        r is Some <==> usb_controller(device@) is Some,
        r is Some ==> r.unwrap()@ == usb_controller(device@).unwrap() && r.unwrap()@.wf(),
{
    let mut c = Controller::from_udev(device, "Xbox Unknown", 0, Status::Unknown, false);
    if is_xbox_controller(c.vendor_id) && is_xbox_product_id(c.product_id) {
        update_xbox_controller(&mut c, false);
        Some(c)
    } else {
        None
    }
}

/// Lists the controllers that the records of both scans stand for.
///
/// `probes[i]` is what probing `devices[i]` returned; records that were not
/// probed count as not opened. A device that could not be read is left out,
/// and every other device is listed whatever its probe held.
pub fn get_controllers(
    devices: &Vec<HidDeviceInfo>,
    probes: &Vec<Probe>,
    usb_devices: &Vec<UdevDevice>,
    supplies: &Vec<PowerSupply>,
) -> (r: Vec<Controller>)
    ensures
        controller_views(r@) == controllers(
            device_views(devices@),
            probe_views(probes@),
            udev_views(usb_devices@),
            supply_views(supplies@),
        ),
        forall|i: int| 0 <= i < r@.len() ==> (#[trigger] r@[i])@.wf(),
{
    let ghost dv = device_views(devices@);
    let ghost pv = probe_views(probes@);
    let ghost uv = udev_views(usb_devices@);
    let at = select_devices(devices);
    let unavailable = Probe::Unavailable;
    let mut out: Vec<Controller> = Vec::new();
    let mut k: usize = 0;
    assert(as_ints(at@).take(0) =~= Seq::<int>::empty());
    assert(controller_views(out@) =~= Seq::<ControllerView>::empty());
    while k < at.len()
        invariant
            k <= at@.len(),
            dv == device_views(devices@),
            pv == probe_views(probes@),
            unavailable@ == ProbeView::Unavailable,
            within(at@, devices@.len() as int),
            controller_views(out@) == decode_all(dv, pv, as_ints(at@).take(k as int)),
            forall|i: int| 0 <= i < out@.len() ==> (#[trigger] out@[i])@.wf(),
        decreases at@.len() - k,
    {
        let i = at[k];
        let probe = if i < probes.len() {
            &probes[i]
        } else {
            &unavailable
        };
        proof {
            let next = as_ints(at@).take(k + 1);
            assert(next.drop_last() =~= as_ints(at@).take(k as int));
            assert(next.last() == i);
            assert(probe@ == probe_at(pv, i as int));
        }
        match decode_device(&devices[i], probe) {
            Ok(c) => {
                let ghost before = out@;
                out.push(c);
                assert(controller_views(out@) =~= controller_views(before).push(c@));
            },
            Err(_) => {},
        }
        k += 1;
    }
    assert(as_ints(at@).take(k as int) =~= as_ints(at@));
    let ghost hid = controller_views(out@);
    let mut j: usize = 0;
    assert(hid + Seq::<ControllerView>::empty() =~= hid);
    while j < usb_devices.len()
        invariant
            j <= usb_devices@.len(),
            uv == udev_views(usb_devices@),
            controller_views(out@) == hid + usb_controllers(uv, j as int),
            forall|i: int| 0 <= i < out@.len() ==> (#[trigger] out@[i])@.wf(),
        decreases usb_devices@.len() - j,
    {
        assert(uv[j as int] == usb_devices@[j as int]@);
        match usb_xbox_controller(&usb_devices[j]) {
            Some(c) => {
                let ghost before = out@;
                out.push(c);
                assert(controller_views(out@) =~= controller_views(before).push(c@));
                assert(hid + usb_controllers(uv, j as int).push(c@) =~= (hid + usb_controllers(
                    uv,
                    j as int,
                )).push(c@));
            },
            None => {},
        }
        j += 1;
    }
    get_missing_battery_capacity(&mut out, supplies);
    assert(controller_views(out@) =~= controllers(dv, pv, uv, supply_views(supplies@)));
    out
}

} // verus!
