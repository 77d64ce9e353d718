//! Xbox controllers. Their reports carry no battery level, so the level comes
//! from the Bluetooth utility, and a pad on a cable counts as charging.

use crate::api::bluetooth::{battery_percentage, get_battery_percentage};
use crate::api::{DeviceAccessError, Probe, ProbeView};
use crate::controller::{
    BatteryInfo, Controller, ControllerView, HidDeviceInfo, HidDeviceInfoView, Status,
    FULL_CAPACITY,
};
use vstd::prelude::*;
use vstd::string::*;

verus! {

pub const MS_VENDOR_ID: u16 = 0x045e;

// Xbox One S controller
pub const XBOX_ONE_S_CONTROLLER_USB_PRODUCT_ID: u16 = 0x02ea;

pub const XBOX_ONE_S_CONTROLLER_BT_PRODUCT_ID: u16 = 0x02df;

// The One S controller reports this identifier once it runs the firmware of
// the Series X/S generation.
pub const XBOX_ONE_S_LATEST_FW_PRODUCT_ID: u16 = 0x0b20;

// Xbox Wireless Controller (model 1914)
pub const XBOX_WIRELESS_CONTROLLER_USB_PRODUCT_ID: u16 = 0x0b12;

pub const XBOX_WIRELESS_CONTROLLER_BT_PRODUCT_ID: u16 = 0x0b13;

// Xbox Elite Wireless Controller Series 2
pub const XBOX_WIRELESS_ELITE_CONTROLLER_USB_PRODUCT_ID: u16 = 0x0b00;

pub const XBOX_WIRELESS_ELITE_CONTROLLER_BT_PRODUCT_ID: u16 = 0x0b05;

pub const XBOX_WIRELESS_ELITE_CONTROLLER_BTLE_PRODUCT_ID: u16 = 0x0b22;

/// The product identifiers that are known to be Xbox controllers.
pub open spec fn is_xbox_product(product_id: u16) -> bool {
    product_id == XBOX_ONE_S_CONTROLLER_USB_PRODUCT_ID || product_id
        == XBOX_ONE_S_CONTROLLER_BT_PRODUCT_ID || product_id == XBOX_ONE_S_LATEST_FW_PRODUCT_ID
        || product_id == XBOX_WIRELESS_CONTROLLER_USB_PRODUCT_ID || product_id
        == XBOX_WIRELESS_CONTROLLER_BT_PRODUCT_ID || product_id
        == XBOX_WIRELESS_ELITE_CONTROLLER_USB_PRODUCT_ID || product_id
        == XBOX_WIRELESS_ELITE_CONTROLLER_BT_PRODUCT_ID || product_id
        == XBOX_WIRELESS_ELITE_CONTROLLER_BTLE_PRODUCT_ID
}

/// The display name of the family that a product identifier belongs to.
pub open spec fn xbox_name(product_id: u16) -> Seq<char> {
    if product_id == XBOX_ONE_S_CONTROLLER_USB_PRODUCT_ID || product_id
        == XBOX_ONE_S_CONTROLLER_BT_PRODUCT_ID || product_id == XBOX_ONE_S_LATEST_FW_PRODUCT_ID {
        "Xbox One S"@
    } else if product_id == XBOX_WIRELESS_CONTROLLER_USB_PRODUCT_ID || product_id
        == XBOX_WIRELESS_CONTROLLER_BT_PRODUCT_ID {
        "Xbox Series X/S"@
    } else if product_id == XBOX_WIRELESS_ELITE_CONTROLLER_USB_PRODUCT_ID || product_id
        == XBOX_WIRELESS_ELITE_CONTROLLER_BT_PRODUCT_ID || product_id
        == XBOX_WIRELESS_ELITE_CONTROLLER_BTLE_PRODUCT_ID {
        "Xbox Elite 2"@
    } else {
        "Xbox Unknown"@
    }
}

/// The battery reading that is assumed of an Xbox controller from the way it
/// is connected: on a cable it is taken to be full and charging, on Bluetooth
/// nothing is known.
pub open spec fn assumed_battery(bluetooth: bool) -> BatteryInfo {
    if bluetooth {
        BatteryInfo { capacity: 0, status: Status::Unknown }
    } else {
        BatteryInfo { capacity: FULL_CAPACITY, status: Status::Charging }
    }
}

/// The battery level that a probe gives for a device without a battery field
/// in its reports: what the Bluetooth utility printed, else 0.
pub open spec fn fallback_capacity(probe: ProbeView) -> u8 {
    match probe {
        ProbeView::BluetoothInfo(text) => battery_percentage(text),
        _ => 0,
    }
}

/// The Xbox controller that a record and its probe describe.
pub open spec fn xbox_controller(device: HidDeviceInfoView, probe: ProbeView) -> ControllerView {
    device.controller(xbox_name(device.product_id), fallback_capacity(probe), Status::Unknown)
}

/// Whether a product identifier is one of the known Xbox controllers.
pub fn is_xbox_product_id(product_id: u16) -> (r: bool)
    ensures
        r == is_xbox_product(product_id),
{
    product_id == XBOX_ONE_S_CONTROLLER_USB_PRODUCT_ID || product_id
        == XBOX_ONE_S_CONTROLLER_BT_PRODUCT_ID || product_id == XBOX_ONE_S_LATEST_FW_PRODUCT_ID
        || product_id == XBOX_WIRELESS_CONTROLLER_USB_PRODUCT_ID || product_id
        == XBOX_WIRELESS_CONTROLLER_BT_PRODUCT_ID || product_id
        == XBOX_WIRELESS_ELITE_CONTROLLER_USB_PRODUCT_ID || product_id
        == XBOX_WIRELESS_ELITE_CONTROLLER_BT_PRODUCT_ID || product_id
        == XBOX_WIRELESS_ELITE_CONTROLLER_BTLE_PRODUCT_ID
}

/// The display name for a product identifier.
pub fn get_xbox_controller_name(product_id: u16) -> (r: &'static str)
    ensures
        r@ == xbox_name(product_id),
{
    if product_id == XBOX_ONE_S_CONTROLLER_USB_PRODUCT_ID || product_id
        == XBOX_ONE_S_CONTROLLER_BT_PRODUCT_ID || product_id == XBOX_ONE_S_LATEST_FW_PRODUCT_ID {
        "Xbox One S"
    } else if product_id == XBOX_WIRELESS_CONTROLLER_USB_PRODUCT_ID || product_id
        == XBOX_WIRELESS_CONTROLLER_BT_PRODUCT_ID {
        "Xbox Series X/S"
    } else if product_id == XBOX_WIRELESS_ELITE_CONTROLLER_USB_PRODUCT_ID || product_id
        == XBOX_WIRELESS_ELITE_CONTROLLER_BT_PRODUCT_ID || product_id
        == XBOX_WIRELESS_ELITE_CONTROLLER_BTLE_PRODUCT_ID {
        "Xbox Elite 2"
    } else {
        "Xbox Unknown"
    }
}

/// Whether a vendor identifier is the one Xbox controllers carry.
pub fn is_xbox_controller(vendor_id: u16) -> (r: bool)
    ensures
        r == (vendor_id == MS_VENDOR_ID),
{
    vendor_id == MS_VENDOR_ID
}

/// Names a controller after its product identifier and gives it the battery
/// reading that its connection lets assume.
pub fn update_xbox_controller(controller: &mut Controller, bluetooth: bool)
    ensures
        final(controller)@ == (ControllerView {
            name: xbox_name(old(controller)@.product_id),
            ..old(controller)@.with_battery(assumed_battery(bluetooth))
        }),
        final(controller)@.wf(),
{
    controller.name = get_xbox_controller_name(controller.product_id).to_owned();
    controller.capacity = if bluetooth {
        0
    } else {
        FULL_CAPACITY
    };
    controller.status = if bluetooth {
        Status::Unknown
    } else {
        Status::Charging
    };
}

/// The battery level that a probe gives through the Bluetooth utility.
pub fn probe_capacity(probe: &Probe) -> (r: u8)
    ensures
        r == fallback_capacity(probe@),
        r <= FULL_CAPACITY,
{
    match probe {
        Probe::BluetoothInfo(text) => get_battery_percentage(text.as_slice()),
        _ => 0,
    }
}

/// Builds the controller for an Xbox record. The battery level is the one
/// that the Bluetooth utility reported; this never fails.
pub fn parse_xbox_controller_data(device_info: &HidDeviceInfo, probe: &Probe) -> (r: Result<
    Controller,
    DeviceAccessError,
>)
    ensures
        r is Ok,
        r.unwrap()@ == xbox_controller(device_info@, probe@),
        r.unwrap()@.wf(),
{
    let capacity = probe_capacity(probe);
    let name = get_xbox_controller_name(device_info.product_id);
    Ok(Controller::from_hidapi(device_info, name, capacity, Status::Unknown))
}

} // verus!
