//! PlayStation controllers: DualSense, DualShock 4 and DualShock 3. Each
//! carries its battery state in one byte of its input report, at a place that
//! depends on the model and on the transport.

use crate::api::{DeviceAccessError, Probe, ProbeView};
use crate::bindings::{dualsense_input_report, le_u16, u16_at, DUALSENSE_STATUS_OFFSET};
use crate::controller::{
    BatteryInfo, Controller, ControllerView, HidDeviceInfo, HidDeviceInfoView, Status,
    FULL_CAPACITY,
};
use vstd::prelude::*;
use vstd::slice::*;
use vstd::string::*;

verus! {

pub const DS_VENDOR_ID: u16 = 0x054c;

// DualShock 4 product id before system update 5.50
pub const DS4_OLD_PRODUCT_ID: u16 = 0x05c4;

// DualShock 4 product id since system update 5.50
pub const DS4_NEW_PRODUCT_ID: u16 = 0x09cc;

pub const DS4_INPUT_REPORT_USB: u8 = 0x01;

pub const DS4_INPUT_REPORT_USB_SIZE: usize = 64;

pub const DS4_INPUT_REPORT_BT: u8 = 0x11;

pub const DS4_INPUT_REPORT_BT_SIZE: usize = 78;

pub const DS4_STATUS_BATTERY_CAPACITY: u8 = 0x0f;

pub const DS4_STATUS0_CABLE_STATE: u8 = 0x10;

pub const DS4_BATTERY_STATUS_FULL: u8 = 11;

/// Bytes of the part that both DualShock 4 reports share.
pub const DS4_INPUT_REPORT_COMMON_SIZE: usize = 32;

/// Where the shared part starts in the USB report: after the report id.
pub const DS4_INPUT_REPORT_USB_COMMON_OFFSET: usize = 1;

/// Where the shared part starts in the Bluetooth report: after the report id
/// and two reserved bytes.
pub const DS4_INPUT_REPORT_BT_COMMON_OFFSET: usize = 3;

/// Where the two status bytes lie in the shared part.
pub const DS4_COMMON_STATUS_OFFSET: usize = 29;

/// Touch reports that follow the shared part over USB and over Bluetooth.
pub const DS4_USB_TOUCH_REPORTS: usize = 3;

pub const DS4_BT_TOUCH_REPORTS: usize = 4;

/// Bytes of one touch report: a timestamp and two touch points.
pub const DS4_TOUCH_REPORT_SIZE: usize = 9;

// DualSense
pub const DS_PRODUCT_ID: u16 = 0x0ce6;

// DualSense Edge
pub const DS_EDGE_PRODUCT_ID: u16 = 0x0df2;

pub const DS_INPUT_REPORT_BT: u8 = 0x31;

pub const DS_INPUT_REPORT_BT_SIZE: usize = 78;

pub const DS_INPUT_REPORT_USB: u8 = 0x01;

pub const DS_INPUT_REPORT_USB_SIZE: usize = 64;

/// Bytes before the report proper over USB: the report id.
pub const DS_INPUT_REPORT_USB_HEADER: usize = 1;

/// Bytes before the report proper over Bluetooth: the report id and a
/// sequence byte.
pub const DS_INPUT_REPORT_BT_HEADER: usize = 2;

pub const DS_STATUS_BATTERY_CAPACITY: u8 = 0x0f;

pub const DS_STATUS_CHARGING: u8 = 0xf0;

pub const DS_STATUS_CHARGING_SHIFT: u8 = 4;

// DualShock 3
pub const DS3_PRODUCT_ID: u16 = 0x0268;

pub const DS3_INPUT_REPORT: u8 = 0x01;

pub const DS3_INPUT_REPORT_SIZE: usize = 49;

/// How long a read waits for a DualShock 3, which does not answer while it
/// is not paired, in milliseconds.
pub const DS3_INPUT_REPORT_TIMEOUT_MS: i32 = 2000;

pub const DS3_INPUT_REPORT_BATTERY_OFFSET: usize = 30;

pub const DS3_INPUT_REPORT_BATTERY_CHARGING: u8 = 0xee;

pub const DS3_INPUT_REPORT_CHARGING_BIT: u8 = 0x01;

/// The second byte of a frame that a DualShock 3 sends now and then over
/// Bluetooth and that says nothing of its state.
pub const DS3_NOISE_MARKER: u8 = 0xff;

/// The capacity for a battery level of 0 to 10: the middle of its tenth,
/// and never more than full.
pub open spec fn level_capacity(battery_data: u8) -> u8 {
    if battery_data * 10 + 5 >= FULL_CAPACITY {
        FULL_CAPACITY
    } else {
        (battery_data * 10 + 5) as u8
    }
}

/// The battery reading for a charge code and a battery level.
///
/// | code       | status      | capacity            |
/// |------------|-------------|---------------------|
/// | 0x0        | Discharging | from the level      |
/// | 0x1, 0x2   | Charging    | from the level      |
/// | 0xa, 0xb   | NotCharging | 0                   |
/// | any other  | Unknown     | 0                   |
pub open spec fn battery_status(charging_status: u8, battery_data: u8) -> BatteryInfo {
    if charging_status == 0x0 {
        BatteryInfo { capacity: level_capacity(battery_data), status: Status::Discharging }
    } else if charging_status == 0x1 || charging_status == 0x2 {
        BatteryInfo { capacity: level_capacity(battery_data), status: Status::Charging }
    } else if charging_status == 0xa || charging_status == 0xb {
        BatteryInfo { capacity: 0, status: Status::NotCharging }
    } else {
        BatteryInfo { capacity: 0, status: Status::Unknown }
    }
}

/// The battery reading in the status byte of a DualSense: the level in the
/// low half, the charge code in the high half.
pub open spec fn dualsense_battery(status: u8) -> BatteryInfo {
    battery_status(
        (status & DS_STATUS_CHARGING) >> DS_STATUS_CHARGING_SHIFT,
        status & DS_STATUS_BATTERY_CAPACITY,
    )
}

/// The battery reading in what one read of a DualSense returned. A report
/// whose id or size is not the one of the transport says nothing.
pub open spec fn dualsense_report_battery(bluetooth: bool, data: Seq<u8>) -> BatteryInfo {
    if !bluetooth && data.len() == DS_INPUT_REPORT_USB_SIZE && data[0] == DS_INPUT_REPORT_USB {
        dualsense_battery(data[DS_INPUT_REPORT_USB_HEADER + DUALSENSE_STATUS_OFFSET])
    } else if bluetooth && data.len() == DS_INPUT_REPORT_BT_SIZE && data[0] == DS_INPUT_REPORT_BT {
        dualsense_battery(data[DS_INPUT_REPORT_BT_HEADER + DUALSENSE_STATUS_OFFSET])
    } else {
        BatteryInfo::unknown()
    }
}

/// The charge code that a DualShock 4 status byte stands for. With the
/// cable plugged in, a level up to 10 means charging, level 11 means full,
/// and anything else is an error; without the cable the pad discharges.
pub open spec fn dualshock_charge_code(status: u8) -> u8 {
    let battery_data = status & DS4_STATUS_BATTERY_CAPACITY;
    if status & DS4_STATUS0_CABLE_STATE != 0 {
        if battery_data <= 10 {
            0x1
        } else if battery_data == DS4_BATTERY_STATUS_FULL {
            0x2
        } else {
            0xf
        }
    } else {
        0x0
    }
}

/// The battery reading in the first status byte of a DualShock 4.
pub open spec fn dualshock_battery(status: u8) -> BatteryInfo {
    battery_status(dualshock_charge_code(status), status & DS4_STATUS_BATTERY_CAPACITY)
}

/// The battery reading in what one read of a DualShock 4 returned. A report
/// whose id or size is not the one of the transport says nothing.
pub open spec fn dualshock_report_battery(bluetooth: bool, data: Seq<u8>) -> BatteryInfo {
    if !bluetooth && data.len() == DS4_INPUT_REPORT_USB_SIZE && data[0] == DS4_INPUT_REPORT_USB {
        dualshock_battery(data[DS4_INPUT_REPORT_USB_COMMON_OFFSET + DS4_COMMON_STATUS_OFFSET])
    } else if bluetooth && data.len() == DS4_INPUT_REPORT_BT_SIZE && data[0]
        == DS4_INPUT_REPORT_BT {
        dualshock_battery(data[DS4_INPUT_REPORT_BT_COMMON_OFFSET + DS4_COMMON_STATUS_OFFSET])
    } else {
        BatteryInfo::unknown()
    }
}

/// The capacity for a DualShock 3 battery level; levels above 5 count as 5.
pub open spec fn ds3_capacity(level: u8) -> u8 {
    if level == 0 {
        0
    } else if level == 1 {
        1
    } else if level == 2 {
        25
    } else if level == 3 {
        50
    } else if level == 4 {
        75
    } else {
        100
    }
}

/// The battery reading in the battery byte of a DualShock 3. From 0xee on
/// the pad is on a charger and reports no level: with the lowest bit clear
/// it charges, and is taken to be three quarters full; with the bit set it
/// is full and its status is not known.
pub open spec fn ds3_battery(battery_data: u8) -> BatteryInfo {
    if battery_data >= DS3_INPUT_REPORT_BATTERY_CHARGING {
        if battery_data & DS3_INPUT_REPORT_CHARGING_BIT == 0 {
            BatteryInfo { capacity: 75, status: Status::Charging }
        } else {
            BatteryInfo { capacity: 100, status: Status::Unknown }
        }
    } else {
        BatteryInfo { capacity: ds3_capacity(battery_data), status: Status::Discharging }
    }
}

/// The battery reading in what one read of a DualShock 3 returned. Only a
/// whole report with the right id counts, and not the noise frame, whose
/// second byte is 0xff; an empty read means that the pad is not active.
pub open spec fn ds3_report_battery(data: Seq<u8>) -> BatteryInfo {
    if data.len() == DS3_INPUT_REPORT_SIZE && data[0] == DS3_INPUT_REPORT && data[1]
        != DS3_NOISE_MARKER {
        ds3_battery(data[DS3_INPUT_REPORT_BATTERY_OFFSET as int])
    } else {
        BatteryInfo::unknown()
    }
}

/// The error that a probe without a report stands for, if it is one.
pub open spec fn report_error(probe: ProbeView) -> Option<DeviceAccessError> {
    match probe {
        ProbeView::Report(_) => None,
        ProbeView::ReadFailed => Some(DeviceAccessError::ReadFailed),
        _ => Some(DeviceAccessError::OpenFailed),
    }
}

/// The controller that a record, its name and the battery reading of its
/// report describe, or the error that kept the report away.
pub open spec fn report_controller(
    device: HidDeviceInfoView,
    name: Seq<char>,
    probe: ProbeView,
    battery: BatteryInfo,
) -> Result<ControllerView, DeviceAccessError> {
    match report_error(probe) {
        Some(e) => Err(e),
        None => Ok(device.controller(name, battery.capacity, battery.status)),
    }
}

/// The DualSense that a record and its probe describe.
pub open spec fn dualsense_controller(device: HidDeviceInfoView, probe: ProbeView, name: Seq<char>)
    -> Result<ControllerView, DeviceAccessError> {
    report_controller(
        device,
        name,
        probe,
        dualsense_report_battery(device.bluetooth(), probe->Report_0),
    )
}

/// The DualShock 4 that a record and its probe describe.
pub open spec fn dualshock_controller(device: HidDeviceInfoView, probe: ProbeView) -> Result<
    ControllerView,
    DeviceAccessError,
> {
    report_controller(
        device,
        "DualShock 4"@,
        probe,
        dualshock_report_battery(device.bluetooth(), probe->Report_0),
    )
}

/// The DualShock 3 that a record and its probe describe.
pub open spec fn dualshock3_controller(
    device: HidDeviceInfoView,
    probe: ProbeView,
    name: Seq<char>,
) -> Result<ControllerView, DeviceAccessError> {
    report_controller(device, name, probe, ds3_report_battery(probe->Report_0))
}

/// Whether a controller is the one that a specification gives, and an error
/// the same error.
pub open spec fn decoded_as(
    r: Result<Controller, DeviceAccessError>,
    expected: Result<ControllerView, DeviceAccessError>,
) -> bool {
    match (r, expected) {
        (Ok(c), Ok(v)) => c@ == v && c@.wf(),
        (Err(e), Err(f)) => e == f,
        _ => false,
    }
}

/// The part that the USB and the Bluetooth report of a DualShock 4 share,
/// field by field in wire order.
#[derive(Copy, Clone, Debug)]
pub struct DualShock4InputReportCommon {
    pub x: u8,
    pub y: u8,
    pub rx: u8,
    pub ry: u8,
    pub buttons: [u8; 3],
    pub z: u8,
    pub rz: u8,
    pub sensor_timestamp: u16,
    pub sensor_temperature: u8,
    pub gyro: [u16; 3],
    pub accel: [u16; 3],
    pub reserved2: [u8; 5],
    pub status: [u8; 2],
    pub reserved3: u8,
}

impl DualShock4InputReportCommon {
    /// What the 32 bytes of `s` from `at` on say of the shared part: each
    /// field at its offset.
    pub open spec fn holds(&self, s: Seq<u8>, at: int) -> bool {
        &&& self.x == s[at]
        &&& self.y == s[at + 1]
        &&& self.rx == s[at + 2]
        &&& self.ry == s[at + 3]
        &&& self.buttons@ == s.subrange(at + 4, at + 7)
        &&& self.z == s[at + 7]
        &&& self.rz == s[at + 8]
        &&& self.sensor_timestamp == le_u16(s, at + 9)
        &&& self.sensor_temperature == s[at + 11]
        &&& self.gyro@ == seq![le_u16(s, at + 12), le_u16(s, at + 14), le_u16(s, at + 16)]
        &&& self.accel@ == seq![le_u16(s, at + 18), le_u16(s, at + 20), le_u16(s, at + 22)]
        &&& self.reserved2@ == s.subrange(at + 24, at + 29)
        &&& self.status@ == s.subrange(
            at + DS4_COMMON_STATUS_OFFSET,
            at + DS4_COMMON_STATUS_OFFSET + 2,
        )
        &&& self.reserved3 == s[at + 31]
    }

    /// Reads the shared part that starts at `at`, if `bytes` holds all of it.
    pub fn parse(bytes: &[u8], at: usize) -> (r: Option<DualShock4InputReportCommon>)
        ensures
            r is Some <==> at + DS4_INPUT_REPORT_COMMON_SIZE <= bytes@.len(),
            r is Some ==> r.unwrap().holds(bytes@, at as int),
    {
        let n = bytes.len();
        if n < DS4_INPUT_REPORT_COMMON_SIZE || at > n - DS4_INPUT_REPORT_COMMON_SIZE {
            return None;
        }
        let common = DualShock4InputReportCommon {
            x: bytes[at],
            y: bytes[at + 1],
            rx: bytes[at + 2],
            ry: bytes[at + 3],
            buttons: [bytes[at + 4], bytes[at + 5], bytes[at + 6]],
            z: bytes[at + 7],
            rz: bytes[at + 8],
            sensor_timestamp: u16_at(bytes, at + 9),
            sensor_temperature: bytes[at + 11],
            gyro: [u16_at(bytes, at + 12), u16_at(bytes, at + 14), u16_at(bytes, at + 16)],
            accel: [u16_at(bytes, at + 18), u16_at(bytes, at + 20), u16_at(bytes, at + 22)],
            reserved2: [
                bytes[at + 24],
                bytes[at + 25],
                bytes[at + 26],
                bytes[at + 27],
                bytes[at + 28],
            ],
            status: [bytes[at + 29], bytes[at + 30]],
            reserved3: bytes[at + 31],
        };
        proof {
            let s = bytes@;
            assert(common.buttons@ =~= s.subrange(at + 4, at + 7));
            assert(common.gyro@ =~= seq![
                le_u16(s, at + 12),
                le_u16(s, at + 14),
                le_u16(s, at + 16),
            ]);
            assert(common.accel@ =~= seq![
                le_u16(s, at + 18),
                le_u16(s, at + 20),
                le_u16(s, at + 22),
            ]);
            assert(common.reserved2@ =~= s.subrange(at + 24, at + 29));
            assert(common.status@ =~= s.subrange(at + 29, at + 31));
        }
        Some(common)
    }
}

/// The battery reading for a charge code and a battery level.
pub fn get_battery_status(charging_status: u8, battery_data: u8) -> (r: BatteryInfo)
    ensures
        r == battery_status(charging_status, battery_data),
        r.wf(),
{
    let scaled: u16 = battery_data as u16 * 10 + 5;
    let capacity: u8 = if scaled >= FULL_CAPACITY as u16 {
        FULL_CAPACITY
    } else {
        scaled as u8
    };
    if charging_status == 0x0 {
        BatteryInfo { capacity, status: Status::Discharging }
    } else if charging_status == 0x1 || charging_status == 0x2 {
        BatteryInfo { capacity, status: Status::Charging }
    } else if charging_status == 0xa || charging_status == 0xb {
        BatteryInfo { capacity: 0, status: Status::NotCharging }
    } else {
        BatteryInfo { capacity: 0, status: Status::Unknown }
    }
}

/// The battery reading in the battery byte of a DualShock 3.
pub fn get_ds3_battery_status(battery_data: u8) -> (r: BatteryInfo)
    ensures
        r == ds3_battery(battery_data),
        r.wf(),
{
    if battery_data >= DS3_INPUT_REPORT_BATTERY_CHARGING {
        if battery_data & DS3_INPUT_REPORT_CHARGING_BIT == 0 {
            BatteryInfo { capacity: 75, status: Status::Charging }
        } else {
            BatteryInfo { capacity: 100, status: Status::Unknown }
        }
    } else {
        let capacity: u8 = if battery_data == 0 {
            0
        } else if battery_data == 1 {
            1
        } else if battery_data == 2 {
            25
        } else if battery_data == 3 {
            50
        } else if battery_data == 4 {
            75
        } else {
            100
        };
        BatteryInfo { capacity, status: Status::Discharging }
    }
}

/// The battery reading in the first status byte of a DualShock 4.
pub fn get_dualshock_battery_status(status: u8) -> (r: BatteryInfo)
    ensures
        r == dualshock_battery(status),
        r.wf(),
{
    let battery_data = status & DS4_STATUS_BATTERY_CAPACITY;
    let cable_state = status & DS4_STATUS0_CABLE_STATE;
    let mut charging_status: u8 = 0x0;
    if cable_state != 0 {
        if battery_data <= 10 {
            charging_status = 0x1;
        } else if battery_data == DS4_BATTERY_STATUS_FULL {
            charging_status = 0x2;
        } else {
            charging_status = 0xf;
        }
    }
    get_battery_status(charging_status, battery_data)
}

/// The battery reading in what one read of a DualShock 4 returned.
pub fn read_dualshock_report(bluetooth: bool, data: &[u8]) -> (r: BatteryInfo)
    ensures
        r == dualshock_report_battery(bluetooth, data@),
        r.wf(),
{
    let offset = if !bluetooth && data.len() == DS4_INPUT_REPORT_USB_SIZE && data[0]
        == DS4_INPUT_REPORT_USB {
        DS4_INPUT_REPORT_USB_COMMON_OFFSET
    } else if bluetooth && data.len() == DS4_INPUT_REPORT_BT_SIZE && data[0]
        == DS4_INPUT_REPORT_BT {
        DS4_INPUT_REPORT_BT_COMMON_OFFSET
    } else {
        return BatteryInfo { capacity: 0, status: Status::Unknown };
    };
    match DualShock4InputReportCommon::parse(data, offset) {
        Some(common) => {
            assert(common.status@[0] == data@[offset + DS4_COMMON_STATUS_OFFSET]);
            get_dualshock_battery_status(common.status[0])
        },
        None => BatteryInfo { capacity: 0, status: Status::Unknown },
    }
}

/// The battery reading in what one read of a DualSense returned.
pub fn read_dualsense_report(bluetooth: bool, data: &[u8]) -> (r: BatteryInfo)
    ensures
        r == dualsense_report_battery(bluetooth, data@),
        r.wf(),
{
    let header = if !bluetooth && data.len() == DS_INPUT_REPORT_USB_SIZE && data[0]
        == DS_INPUT_REPORT_USB {
        DS_INPUT_REPORT_USB_HEADER
    } else if bluetooth && data.len() == DS_INPUT_REPORT_BT_SIZE && data[0]
        == DS_INPUT_REPORT_BT {
        DS_INPUT_REPORT_BT_HEADER
    } else {
        return BatteryInfo { capacity: 0, status: Status::Unknown };
    };
    let payload = slice_subrange(data, header, data.len());
    match dualsense_input_report::parse(payload) {
        Some(report) => {
            assert(report.status == data@[header + DUALSENSE_STATUS_OFFSET]);
            let battery_data = report.status & DS_STATUS_BATTERY_CAPACITY;
            let charging_status = (report.status & DS_STATUS_CHARGING) >> DS_STATUS_CHARGING_SHIFT;
            get_battery_status(charging_status, battery_data)
        },
        None => BatteryInfo { capacity: 0, status: Status::Unknown },
    }
}

/// The battery reading in what one read of a DualShock 3 returned.
pub fn read_dualshock3_report(data: &[u8]) -> (r: BatteryInfo)
    ensures
        r == ds3_report_battery(data@),
        r.wf(),
{
    if data.len() == 0 {
        return BatteryInfo { capacity: 0, status: Status::Unknown };
    }
    if data.len() >= 2 && data[1] == DS3_NOISE_MARKER {
        return BatteryInfo { capacity: 0, status: Status::Unknown };
    }
    if data[0] == DS3_INPUT_REPORT && data.len() == DS3_INPUT_REPORT_SIZE {
        get_ds3_battery_status(data[DS3_INPUT_REPORT_BATTERY_OFFSET])
    } else {
        BatteryInfo { capacity: 0, status: Status::Unknown }
    }
}

/// Builds the controller for a DualShock 4 record from what one read of its
/// input report returned. A device that was not opened or not read is an
/// error; a report that is not the one of the transport leaves the battery
/// unknown.
pub fn parse_dualshock_controller_data(device_info: &HidDeviceInfo, probe: &Probe) -> (r: Result<
    Controller,
    DeviceAccessError,
>)
    ensures
        decoded_as(r, dualshock_controller(device_info@, probe@)),
{
    match probe {
        Probe::Report(data) => {
            let bluetooth = device_info.interface_number == crate::controller::NO_INTERFACE;
            let battery = read_dualshock_report(bluetooth, data.as_slice());
            Ok(Controller::from_hidapi(device_info, "DualShock 4", battery.capacity, battery.status))
        },
        Probe::ReadFailed => Err(DeviceAccessError::ReadFailed),
        _ => Err(DeviceAccessError::OpenFailed),
    }
}

/// Builds the controller for a DualSense record from what one read of its
/// input report returned. A device that was not opened or not read is an
/// error; a report that is not the one of the transport leaves the battery
/// unknown.
pub fn parse_dualsense_controller_data(device_info: &HidDeviceInfo, probe: &Probe, name: &str) -> (r:
    Result<Controller, DeviceAccessError>)
    ensures
        decoded_as(r, dualsense_controller(device_info@, probe@, name@)),
{
    match probe {
        Probe::Report(data) => {
            let bluetooth = device_info.interface_number == crate::controller::NO_INTERFACE;
            let battery = read_dualsense_report(bluetooth, data.as_slice());
            Ok(Controller::from_hidapi(device_info, name, battery.capacity, battery.status))
        },
        Probe::ReadFailed => Err(DeviceAccessError::ReadFailed),
        _ => Err(DeviceAccessError::OpenFailed),
    }
}

/// Builds the controller for a DualShock 3 record from what one read of its
/// input report returned. A device that was not opened or not read is an
/// error; an empty read, the noise frame and a report of another kind leave
/// the battery unknown.
pub fn parse_dualshock3_controller_data(device_info: &HidDeviceInfo, probe: &Probe, name: &str) -> (r:
    Result<Controller, DeviceAccessError>)
    ensures
        decoded_as(r, dualshock3_controller(device_info@, probe@, name@)),
{
    match probe {
        Probe::Report(data) => {
            let battery = read_dualshock3_report(data.as_slice());
            Ok(Controller::from_hidapi(device_info, name, battery.capacity, battery.status))
        },
        Probe::ReadFailed => Err(DeviceAccessError::ReadFailed),
        _ => Err(DeviceAccessError::OpenFailed),
    }
}

} // verus!
