//! The Switch Pro Controller, whose input report carries the battery level
//! and the charging flag in its third byte.

use crate::api::{DeviceAccessError, Probe, ProbeView};
use crate::controller::{
    BatteryInfo, Controller, ControllerView, HidDeviceInfo, HidDeviceInfoView, Status,
};
use vstd::prelude::*;
use vstd::string::*;

verus! {

pub const VENDOR_ID_NINTENDO: u16 = 0x057e;

pub const PRODUCT_ID_NINTENDO_PROCON: u16 = 0x2009;

/// Bytes asked of the device in one read.
pub const INPUT_REPORT_SIZE: usize = 362;

/// How long one read waits for a report, in milliseconds.
pub const INPUT_REPORT_TIMEOUT_MS: i32 = 1000;

/// Bytes of the report that are looked at: id, timer, and status.
pub const INPUT_REPORT_HEADER_SIZE: usize = 3;

/// The flag in the status byte that is set while the battery charges.
pub const STATUS_CHARGING: u8 = 0x10;

/// The capacity for a battery level, which the status byte holds in its top
/// three bits. Levels above 4 are unknown and count as empty.
pub open spec fn pro_capacity(level: u8) -> u8 {
    if level == 0 {
        5
    } else if level == 1 {
        25
    } else if level == 2 {
        50
    } else if level == 3 {
        75
    } else if level == 4 {
        100
    } else {
        0
    }
}

/// The battery reading in a status byte.
pub open spec fn pro_battery(status: u8) -> BatteryInfo {
    BatteryInfo {
        capacity: pro_capacity(status >> 5),
        status: if status & STATUS_CHARGING != 0 {
            Status::Charging
        } else {
            Status::Discharging
        },
    }
}

/// The battery reading in what a read returned. A report too short to hold
/// the status byte, as after a timeout, and a failed read say nothing.
pub open spec fn pro_probe_battery(probe: ProbeView) -> BatteryInfo {
    match probe {
        ProbeView::Report(data) if data.len() >= INPUT_REPORT_HEADER_SIZE => pro_battery(data[2]),
        _ => BatteryInfo::unknown(),
    }
}

/// Whether a probe shows that the device was opened.
pub open spec fn was_opened(probe: ProbeView) -> bool {
    probe is Report || probe is ReadFailed
}

/// The Pro Controller that a record and its probe describe.
pub open spec fn pro_controller(device: HidDeviceInfoView, probe: ProbeView) -> ControllerView {
    let battery = pro_probe_battery(probe);
    device.controller("Pro Controller"@, battery.capacity, battery.status)
}

/// Decodes the status byte of an input report.
pub fn get_pro_battery_status(status: u8) -> (r: BatteryInfo)
    ensures
        r == pro_battery(status),
        r.wf(),
{
    let battery_charging = status & STATUS_CHARGING != 0;
    let level = status >> 5;
    let capacity: u8 = if level == 0 {
        5
    } else if level == 1 {
        25
    } else if level == 2 {
        50
    } else if level == 3 {
        75
    } else if level == 4 {
        100
    } else {
        0
    };
    BatteryInfo {
        capacity,
        status: if battery_charging {
            Status::Charging
        } else {
            Status::Discharging
        },
    }
}

/// Builds the controller for a Pro Controller record from what one read of
/// its input report returned. Only a device that was not opened is an error;
/// a failed or empty read leaves the battery unknown.
pub fn parse_pro_controller_data(device_info: &HidDeviceInfo, probe: &Probe) -> (r: Result<
    Controller,
    DeviceAccessError,
>)
    ensures
        r is Ok <==> was_opened(probe@),
        r is Ok ==> r.unwrap()@ == pro_controller(device_info@, probe@) && r.unwrap()@.wf(),
        r is Err ==> r.unwrap_err() == DeviceAccessError::OpenFailed,
{
    let battery = match probe {
        Probe::Report(data) => {
            if data.len() >= INPUT_REPORT_HEADER_SIZE {
                get_pro_battery_status(data[2])
            } else {
                BatteryInfo { capacity: 0, status: Status::Unknown }
            }
        },
        Probe::ReadFailed => BatteryInfo { capacity: 0, status: Status::Unknown },
        _ => {
            return Err(DeviceAccessError::OpenFailed);
        },
    };
    Ok(Controller::from_hidapi(device_info, "Pro Controller", battery.capacity, battery.status))
}

} // verus!
