//! GuliKit controllers, which report no battery level at all.

use crate::api::DeviceAccessError;
use crate::controller::{Controller, ControllerView, HidDeviceInfo, HidDeviceInfoView, Status};
use vstd::prelude::*;
use vstd::string::*;

verus! {

pub const VENDOR_ID: u16 = 0x045e;

pub const PRODUCT_ID: u16 = 0x02e0;

/// The GuliKit controller that a record describes.
pub open spec fn gulikit_controller(device: HidDeviceInfoView) -> ControllerView {
    device.controller("GuliKit Controller XW"@, 0, Status::Unknown)
}

/// Builds the controller for a GuliKit record: its name and its transport,
/// with nothing known of the battery. This never fails.
pub fn parse_controller_data(device_info: &HidDeviceInfo) -> (r: Result<Controller, DeviceAccessError>)
    ensures
        r is Ok,
        r.unwrap()@ == gulikit_controller(device_info@),
        r.unwrap()@.wf(),
{
    Ok(Controller::from_hidapi(device_info, "GuliKit Controller XW", 0, Status::Unknown))
}

} // verus!
