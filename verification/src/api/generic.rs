//! Devices of vendors that no other decoder claims. Their name is the one
//! the device gives, and the battery level comes from the Bluetooth utility.

use crate::api::nintendo::VENDOR_ID_NINTENDO;
use crate::api::playstation::DS_VENDOR_ID;
use crate::api::xbox::{fallback_capacity, probe_capacity, MS_VENDOR_ID};
use crate::api::{DeviceAccessError, Probe, ProbeView};
use crate::controller::{Controller, ControllerView, HidDeviceInfo, HidDeviceInfoView, Status};
use crate::text::{str_starts_with, text_starts_with};
use vstd::prelude::*;
use vstd::string::*;

verus! {

/// The vendor of the handheld's own input devices.
pub const VALVE_VENDOR_ID: u16 = 0x28de;

/// The vendor of the handheld's touch sensor.
pub const FOCALTECH_VENDOR_ID: u16 = 0x2808;

/// Vendors whose devices are never read as generic controllers: parts of the
/// host itself, and the vendors that have a decoder of their own.
pub const IGNORED_VENDORS: [u16; 5] = [
    VALVE_VENDOR_ID,
    FOCALTECH_VENDOR_ID,
    VENDOR_ID_NINTENDO,
    DS_VENDOR_ID,
    MS_VENDOR_ID,
];

/// Whether a vendor is on the list of ignored vendors.
pub open spec fn is_ignored_vendor(vendor_id: u16) -> bool {
    vendor_id == VALVE_VENDOR_ID || vendor_id == FOCALTECH_VENDOR_ID || vendor_id
        == VENDOR_ID_NINTENDO || vendor_id == DS_VENDOR_ID || vendor_id == MS_VENDOR_ID
}

/// The display name for a product text: Stadia controllers carry a text
/// that differs from unit to unit and are all shown under one name; a device
/// without a product text is an unknown controller.
pub open spec fn generic_name(product_string: Option<Seq<char>>) -> Seq<char> {
    match product_string {
        Some(name) => if text_starts_with(name, "Stadia"@) {
            "Stadia Controller"@
        } else {
            name
        },
        None => "Unknown Controller"@,
    }
}

/// The generic controller that a record and its probe describe.
pub open spec fn generic_controller(device: HidDeviceInfoView, probe: ProbeView)
    -> ControllerView {
    device.controller(
        generic_name(device.product_string),
        fallback_capacity(probe),
        Status::Unknown,
    )
}

/// Whether a vendor is on the list of ignored vendors.
pub fn is_ignored(vendor_id: u16) -> (r: bool)
    ensures
        r == is_ignored_vendor(vendor_id),
{
    let mut i: usize = 0;
    while i < 5
        invariant
            i <= 5,
            forall|j: int| 0 <= j < i ==> IGNORED_VENDORS@[j] != vendor_id,
        decreases 5 - i,
    {
        if IGNORED_VENDORS[i] == vendor_id {
            return true;
        }
        i += 1;
    }
    assert(IGNORED_VENDORS@[0] != vendor_id);
    assert(IGNORED_VENDORS@[1] != vendor_id);
    assert(IGNORED_VENDORS@[2] != vendor_id);
    assert(IGNORED_VENDORS@[3] != vendor_id);
    assert(IGNORED_VENDORS@[4] != vendor_id);
    false
}

/// Builds the controller for a record of a vendor without a decoder of its
/// own. The battery level is the one that the Bluetooth utility reported;
/// this never fails.
pub fn get_controller_data(device_info: &HidDeviceInfo, probe: &Probe) -> (r: Result<
    Controller,
    DeviceAccessError,
>)
    ensures
        r is Ok,
        r.unwrap()@ == generic_controller(device_info@, probe@),
        r.unwrap()@.wf(),
{
    let capacity = probe_capacity(probe);
    let controller = match &device_info.product_string {
        Some(product) => {
            if str_starts_with(product.as_str(), "Stadia") {
                Controller::from_hidapi(device_info, "Stadia Controller", capacity, Status::Unknown)
            } else {
                Controller::from_hidapi(device_info, product.as_str(), capacity, Status::Unknown)
            }
        },
        None => Controller::from_hidapi(
            device_info,
            "Unknown Controller",
            capacity,
            Status::Unknown,
        ),
    };
    Ok(controller)
}

} // verus!
