//! The normalized controller record, the enumeration records it is built
//! from, and the key that identifies one physical device.

use crate::text::{decimal, parse_unsigned, push_decimal, read_unsigned};
use vstd::prelude::*;
use vstd::string::*;
use vstd::utf8::encode_utf8;

verus! {

/// Charging state of a controller's battery.
#[derive(Debug, Clone, Copy, PartialEq, Eq, Structural)]
pub enum Status {
    Charging,
    Discharging,
    Full,
    NotCharging,
    Unknown,
}

/// The interface index of a record that has no USB interface, which is how a
/// Bluetooth connection shows.
pub const NO_INTERFACE: i32 = -1;

/// The largest capacity a controller reports, in percent.
pub const FULL_CAPACITY: u8 = 100;

/// A battery reading: how full the battery is, in percent, and what it is
/// doing.
#[derive(Debug, Clone, Copy, PartialEq, Eq, Structural)]
pub struct BatteryInfo {
    pub capacity: u8,
    pub status: Status,
}

impl BatteryInfo {
    /// A reading is well formed when its capacity is a percentage.
    pub open spec fn wf(self) -> bool {
        self.capacity <= FULL_CAPACITY
    }

    /// The reading that stands for "nothing is known".
    pub open spec fn unknown() -> BatteryInfo {
        BatteryInfo { capacity: 0, status: Status::Unknown }
    }
}

/// One record of the HID enumeration, as plain values.
#[derive(Debug)]
pub struct HidDeviceInfo {
    pub vendor_id: u16,
    pub product_id: u16,
    pub interface_number: i32,
    pub serial_number: Option<String>,
    pub path: String,
    pub product_string: Option<String>,
}

/// What a `HidDeviceInfo` holds, with its texts as character sequences.
pub struct HidDeviceInfoView {
    pub vendor_id: u16,
    pub product_id: u16,
    pub interface_number: i32,
    pub serial_number: Option<Seq<char>>,
    pub path: Seq<char>,
    pub product_string: Option<Seq<char>>,
}

/// One record of the USB scan of the device manager, as plain values. The
/// identifiers are the texts of the properties, four hexadecimal digits where
/// the device manager knows them.
#[derive(Debug)]
pub struct UdevDevice {
    pub devpath: String,
    pub serial_short: Option<String>,
    pub vendor_id: Option<String>,
    pub model_id: Option<String>,
}

/// What a `UdevDevice` holds, with its texts as character sequences.
pub struct UdevDeviceView {
    pub devpath: Seq<char>,
    pub serial_short: Option<Seq<char>>,
    pub vendor_id: Option<Seq<char>>,
    pub model_id: Option<Seq<char>>,
}

/// A game controller with its battery state.
#[derive(Debug)]
pub struct Controller {
    pub name: String,
    pub product_id: u16,
    pub vendor_id: u16,
    pub capacity: u8,
    pub status: Status,
    pub bluetooth: bool,
    pub serial_number: Option<String>,
    pub device_path: Option<String>,
}

/// What a `Controller` holds, with its texts as character sequences.
pub struct ControllerView {
    pub name: Seq<char>,
    pub product_id: u16,
    pub vendor_id: u16,
    pub capacity: u8,
    pub status: Status,
    pub bluetooth: bool,
    pub serial_number: Option<Seq<char>>,
    pub device_path: Option<Seq<char>>,
}

/// The characters of an optional text.
pub open spec fn text_of(s: Option<String>) -> Option<Seq<char>> {
    match s {
        Some(t) => Some(t@),
        None => None,
    }
}

impl View for HidDeviceInfo {
    type V = HidDeviceInfoView;

    open spec fn view(&self) -> HidDeviceInfoView {
        HidDeviceInfoView {
            vendor_id: self.vendor_id,
            product_id: self.product_id,
            interface_number: self.interface_number,
            serial_number: text_of(self.serial_number),
            path: self.path@,
            product_string: text_of(self.product_string),
        }
    }
}

impl View for UdevDevice {
    type V = UdevDeviceView;

    open spec fn view(&self) -> UdevDeviceView {
        UdevDeviceView {
            devpath: self.devpath@,
            serial_short: text_of(self.serial_short),
            vendor_id: text_of(self.vendor_id),
            model_id: text_of(self.model_id),
        }
    }
}

impl View for Controller {
    type V = ControllerView;

    open spec fn view(&self) -> ControllerView {
        ControllerView {
            name: self.name@,
            product_id: self.product_id,
            vendor_id: self.vendor_id,
            capacity: self.capacity,
            status: self.status,
            bluetooth: self.bluetooth,
            serial_number: text_of(self.serial_number),
            device_path: text_of(self.device_path),
        }
    }
}

/// The views of a list of controllers.
pub open spec fn controller_views(v: Seq<Controller>) -> Seq<ControllerView> {
    Seq::new(v.len(), |i: int| v[i]@)
}

/// A capacity brought into the range of a percentage.
pub open spec fn clamp_capacity(capacity: int) -> u8 {
    if capacity >= FULL_CAPACITY {
        FULL_CAPACITY
    } else if capacity <= 0 {
        0
    } else {
        capacity as u8
    }
}

/// The number that a text of hexadecimal digits writes, or 0 where the text
/// is not such a number or does not fit sixteen bits.
pub open spec fn hex_u16(s: Seq<u8>) -> u16 {
    match parse_unsigned(s, 16, 0xffff) {
        Some(v) => v as u16,
        None => 0,
    }
}

/// An identifier read from an optional property text, 0 where it is missing.
pub open spec fn hex_id(s: Option<Seq<char>>) -> u16 {
    match s {
        Some(t) => hex_u16(encode_utf8(t)),
        None => 0,
    }
}

impl HidDeviceInfoView {
    /// A record without an interface index belongs to a Bluetooth connection.
    pub open spec fn bluetooth(self) -> bool {
        self.interface_number == NO_INTERFACE
    }

    /// The controller that this record and a battery reading describe.
    pub open spec fn controller(self, name: Seq<char>, capacity: u8, status: Status)
        -> ControllerView {
        ControllerView {
            name,
            product_id: self.product_id,
            vendor_id: self.vendor_id,
            capacity: clamp_capacity(capacity as int),
            status,
            bluetooth: self.bluetooth(),
            serial_number: match self.serial_number {
                Some(s) if s.len() > 0 => Some(s),
                _ => None,
            },
            device_path: if self.path.len() == 0 {
                None
            } else {
                Some(self.path)
            },
        }
    }
}

impl UdevDeviceView {
    /// The controller that this record and a battery reading describe.
    pub open spec fn controller(
        self,
        name: Seq<char>,
        capacity: u8,
        status: Status,
        bluetooth: bool,
    ) -> ControllerView {
        ControllerView {
            name,
            product_id: hex_id(self.model_id),
            vendor_id: hex_id(self.vendor_id),
            capacity: clamp_capacity(capacity as int),
            status,
            bluetooth,
            serial_number: self.serial_short,
            device_path: if self.devpath.len() == 0 {
                None
            } else {
                Some(self.devpath)
            },
        }
    }
}

impl ControllerView {
    /// A controller is well formed when its capacity is a percentage.
    pub open spec fn wf(self) -> bool {
        self.capacity <= FULL_CAPACITY
    }

    /// The key that identifies the physical device: the device path where
    /// there is one, else the serial number, else the vendor and the product
    /// identifier in decimal with a colon between them.
    pub open spec fn id(self) -> Seq<char> {
        match self.device_path {
            Some(path) => path,
            None => match self.serial_number {
                Some(serial) => serial,
                None => decimal(self.vendor_id as nat) + seq![':'] + decimal(
                    self.product_id as nat,
                ),
            },
        }
    }

    pub open spec fn is_discharging(self) -> bool {
        self.status == Status::Discharging
    }

    /// The same controller with another battery reading.
    pub open spec fn with_battery(self, battery: BatteryInfo) -> ControllerView {
        ControllerView { capacity: battery.capacity, status: battery.status, ..self }
    }
}

/// A copy of an optional text.
pub fn clone_text(s: &Option<String>) -> (r: Option<String>)
    ensures
        text_of(r) == text_of(*s),
        r == *s,
{
    match s {
        Some(t) => Some(t.clone()),
        None => None,
    }
}

/// Brings a capacity into the range of a percentage.
pub fn clamp(capacity: u8) -> (r: u8)
    ensures
        r == clamp_capacity(capacity as int),
        r <= FULL_CAPACITY,
{
    if capacity >= FULL_CAPACITY {
        FULL_CAPACITY
    } else {
        capacity
    }
}

/// Reads an identifier written in hexadecimal, as the device manager gives
/// it. A text that is not such a number reads as 0.
pub fn hex_str_to_u16(hex_str: &str) -> (r: u16)
    ensures
        r == hex_u16(hex_str.spec_bytes()),
{
    match read_unsigned(hex_str.as_bytes(), 16, 0xffff) {
        Some(v) => v as u16,
        None => 0,
    }
}

/// Reads an identifier from an optional property text.
fn hex_property(value: &Option<String>) -> (r: u16)
    ensures
        r == hex_id(text_of(*value)),
{
    match value {
        Some(t) => hex_str_to_u16(t.as_str()),
        None => 0,
    }
}

impl Controller {
    /// Builds a controller from a record of the device manager's USB scan.
    /// The identifiers are read from the record's hexadecimal properties, and
    /// the capacity is brought into the range of a percentage.
    pub fn from_udev(
        device: &UdevDevice,
        name: &str,
        capacity: u8,
        status: Status,
        bluetooth: bool,
    ) -> (r: Controller)
        ensures
            r@ == device@.controller(name@, capacity, status, bluetooth),
            r@.wf(),
    {
        let serial_number = clone_text(&device.serial_short);
        let device_path = if device.devpath.as_str().is_empty() {
            None
        } else {
            Some(device.devpath.clone())
        };
        let vendor_id = hex_property(&device.vendor_id);
        let product_id = hex_property(&device.model_id);
        Controller {
            name: name.to_owned(),
            vendor_id,
            product_id,
            capacity: clamp(capacity),
            status,
            bluetooth,
            serial_number,
            device_path,
        }
    }

    /// Builds a controller from a record of the HID enumeration. An empty
    /// serial number or path counts as none, a record without an interface
    /// index is on Bluetooth, and the capacity is brought into the range of a
    /// percentage.
    pub fn from_hidapi(device_info: &HidDeviceInfo, name: &str, capacity: u8, status: Status) -> (r:
        Controller)
        ensures
            r@ == device_info@.controller(name@, capacity, status),
            r@.wf(),
    {
        let serial_number = match &device_info.serial_number {
            Some(s) => if s.as_str().is_empty() {
                None
            } else {
                Some(s.clone())
            },
            None => None,
        };
        let bluetooth = device_info.interface_number == NO_INTERFACE;
        let device_path = if device_info.path.as_str().is_empty() {
            None
        } else {
            Some(device_info.path.clone())
        };
        Controller {
            name: name.to_owned(),
            product_id: device_info.product_id,
            vendor_id: device_info.vendor_id,
            capacity: clamp(capacity),
            status,
            bluetooth,
            serial_number,
            device_path,
        }
    }

    /// The key that identifies the physical device across enumerations.
    pub fn id(&self) -> (r: String)
        ensures
            r@ == self@.id(),
    {
        match &self.device_path {
            Some(device_path) => device_path.clone(),
            None => match &self.serial_number {
                Some(serial_number) => serial_number.clone(),
                None => {
                    let mut key = String::new();
                    push_decimal(&mut key, self.vendor_id as u64);
                    key.append(":");
                    push_decimal(&mut key, self.product_id as u64);
                    proof {
                        reveal_strlit(":");
                        assert(":"@ =~= seq![':']);
                        assert(key@ =~= self@.id());
                    }
                    key
                },
            },
        }
    }

    /// Whether the battery is being drained.
    pub fn is_discharging(&self) -> (r: bool)
        ensures
            r == self@.is_discharging(),
    {
        self.status == Status::Discharging
    }

    /// A copy of the controller.
    pub fn duplicate(&self) -> (r: Controller)
        ensures
            r@ == self@,
    {
        Controller {
            name: self.name.clone(),
            product_id: self.product_id,
            vendor_id: self.vendor_id,
            capacity: self.capacity,
            status: self.status,
            bluetooth: self.bluetooth,
            serial_number: clone_text(&self.serial_number),
            device_path: clone_text(&self.device_path),
        }
    }
}

} // verus!
