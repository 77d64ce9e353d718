use controller_battery::api::bluetooth::{
    get_battery_percentage, get_bluetooth_address, uevent_path,
};
use controller_battery::controller::HidDeviceInfo;

fn record(path: &str) -> HidDeviceInfo {
    HidDeviceInfo {
        vendor_id: 0x045e,
        product_id: 0x0b13,
        interface_number: -1,
        serial_number: None,
        path: path.to_string(),
        product_string: None,
    }
}

#[test]
fn test_uevent_path() {
    assert_eq!(
        uevent_path(&record("/dev/hidraw5")),
        Some("/sys/class/hidraw/hidraw5/device/uevent".to_string())
    );
    assert_eq!(
        uevent_path(&record("/dev/hidraw12")),
        Some("/sys/class/hidraw/hidraw12/device/uevent".to_string())
    );
    assert_eq!(
        uevent_path(&record("/dev/hidraw")),
        Some("/sys/class/hidraw/hidraw/device/uevent".to_string())
    );
}

#[test]
fn test_uevent_path_of_other_paths() {
    assert_eq!(uevent_path(&record("")), None);
    assert_eq!(uevent_path(&record("/dev/input/js0")), None);
    assert_eq!(uevent_path(&record("0001:0004:00")), None);
    assert_eq!(uevent_path(&record("/dev/hidra")), None);
    assert_eq!(uevent_path(&record("dev/hidraw5")), None);
    assert_eq!(uevent_path(&record("/sys/dev/hidraw5")), None);
}

#[test]
fn test_get_bluetooth_address() {
    let uevent = b"DRIVER=xpadneo\nHID_ID=0005:0000045E:00000B13\nHID_NAME=Xbox Wireless Controller\nHID_PHYS=aa:bb:cc:dd:ee:ff\nHID_UNIQ=98:7a:14:01:02:03\nMODALIAS=hid:b0005g0001v0000045Ep00000B13\n";
    assert_eq!(get_bluetooth_address(uevent), b"98:7a:14:01:02:03".to_vec());
}

#[test]
fn test_get_bluetooth_address_line_forms() {
    assert_eq!(get_bluetooth_address(b""), b"".to_vec());
    assert_eq!(get_bluetooth_address(b"HID_NAME=x\n"), b"".to_vec());
    // The last line without a line feed counts.
    assert_eq!(get_bluetooth_address(b"HID_UNIQ=aa:bb"), b"aa:bb".to_vec());
    // Carriage returns belong to the line ending.
    assert_eq!(get_bluetooth_address(b"HID_UNIQ=aa:bb\r\nX=1\r\n"), b"aa:bb".to_vec());
    // Only the text up to a second equals sign is the value.
    assert_eq!(get_bluetooth_address(b"HID_UNIQ=aa=bb\n"), b"aa".to_vec());
    // An empty value is an address too.
    assert_eq!(get_bluetooth_address(b"HID_UNIQ=\n"), b"".to_vec());
    // A line without an equals sign gives nothing.
    assert_eq!(get_bluetooth_address(b"HID_UNIQ=aa\nHID_UNIQ\n"), b"aa".to_vec());
    // The key only has to start the line.
    assert_eq!(get_bluetooth_address(b"HID_UNIQUE=cc\n"), b"cc".to_vec());
    assert_eq!(get_bluetooth_address(b" HID_UNIQ=cc\n"), b"".to_vec());
    // The last line that gives an address decides.
    assert_eq!(get_bluetooth_address(b"HID_UNIQ=aa\nHID_UNIQ=bb\n"), b"bb".to_vec());
    assert_eq!(get_bluetooth_address(b"HID_UNIQ=aa\nHID_UNIQ=\n"), b"".to_vec());
}

#[test]
fn test_get_battery_percentage() {
    let info = b"Device 98:7A:14:01:02:03 (public)\n\tName: Xbox Wireless Controller\n\tAlias: Xbox Wireless Controller\n\tPaired: yes\n\tConnected: yes\n\tBattery Percentage: 0x42 (66)\n";
    assert_eq!(get_battery_percentage(info), 66);
}

#[test]
fn test_get_battery_percentage_values() {
    assert_eq!(get_battery_percentage(b"Battery Percentage: 0x00 (0)"), 0);
    assert_eq!(get_battery_percentage(b"Battery Percentage: 0x01 (1)"), 1);
    assert_eq!(get_battery_percentage(b"Battery Percentage: 0x13 (19)"), 19);
    assert_eq!(get_battery_percentage(b"Battery Percentage: 0x63 (99)"), 99);
    assert_eq!(get_battery_percentage(b"Battery Percentage: 0x64 (100)"), 100);
    assert_eq!(get_battery_percentage(b"Battery Percentage: 0x65 (101)"), 100);
    assert_eq!(get_battery_percentage(b"Battery Percentage: 0xff (255)"), 100);
    assert_eq!(get_battery_percentage(b"Battery Percentage: 0xFF (255)"), 100);
    assert_eq!(get_battery_percentage(b"Battery Percentage: 0x2A"), 42);
    assert_eq!(get_battery_percentage(b"Battery Percentage: 0x2a\r\n"), 42);
    assert_eq!(get_battery_percentage(b"Battery Percentage: 0x+2a"), 42);
}

#[test]
fn test_get_battery_percentage_without_a_level() {
    assert_eq!(get_battery_percentage(b""), 0);
    assert_eq!(get_battery_percentage(b"Device aa:bb not available\n"), 0);
    // The level has to be the third word of the line.
    assert_eq!(get_battery_percentage(b"Battery Percentage:"), 0);
    assert_eq!(get_battery_percentage(b"Battery Percentage: "), 0);
    assert_eq!(get_battery_percentage(b"Battery Percentage:  0x42"), 0);
    assert_eq!(get_battery_percentage(b"  Battery Percentage: 0x42"), 0);
    // Two characters are passed over, then come hexadecimal digits only.
    assert_eq!(get_battery_percentage(b"Battery Percentage: 0 (66)"), 0);
    assert_eq!(get_battery_percentage(b"Battery Percentage: 0x (66)"), 0);
    assert_eq!(get_battery_percentage(b"Battery Percentage: 0x4g (66)"), 0);
    assert_eq!(get_battery_percentage(b"Battery Percentage: 0x-4 (66)"), 0);
    assert_eq!(get_battery_percentage(b"Battery Percentage: 0x100 (256)"), 0);
    assert_eq!(get_battery_percentage(b"Battery Level: 0x42 (66)"), 0);
    assert_eq!(get_battery_percentage(b"battery percentage: 0x42 (66)"), 0);
}

#[test]
fn test_get_battery_percentage_last_line_decides() {
    let info = b"\tBattery Percentage: 0x42 (66)\n\tBattery Percentage: 0x10 (16)\n";
    assert_eq!(get_battery_percentage(info), 16);
    // A line that gives no level leaves the one before it.
    let info = b"\tBattery Percentage: 0x42 (66)\n\tBattery Percentage: 0xzz\n";
    assert_eq!(get_battery_percentage(info), 66);
    // The label may stand anywhere on the line.
    assert_eq!(get_battery_percentage(b"a b 0x21 Battery Percentage"), 33);
}
