use controller_battery::api::generic::{get_controller_data, is_ignored, IGNORED_VENDORS};
use controller_battery::api::gulikit::parse_controller_data;
use controller_battery::api::nintendo::{get_pro_battery_status, parse_pro_controller_data};
use controller_battery::api::xbox::{
    get_xbox_controller_name, is_xbox_controller, is_xbox_product_id, parse_xbox_controller_data,
    probe_capacity, update_xbox_controller,
};
use controller_battery::api::{DeviceAccessError, Probe};
use controller_battery::controller::{BatteryInfo, Controller, HidDeviceInfo, Status};

fn record(vendor_id: u16, product_id: u16, interface_number: i32) -> HidDeviceInfo {
    HidDeviceInfo {
        vendor_id,
        product_id,
        interface_number,
        serial_number: Some("0123".to_string()),
        path: "/dev/hidraw1".to_string(),
        product_string: None,
    }
}

fn named(product: Option<&str>) -> HidDeviceInfo {
    HidDeviceInfo {
        vendor_id: 0x18d1,
        product_id: 0x9400,
        interface_number: -1,
        serial_number: None,
        path: "/dev/hidraw7".to_string(),
        product_string: product.map(|s| s.to_string()),
    }
}

fn battery(capacity: u8, status: Status) -> BatteryInfo {
    BatteryInfo { capacity, status }
}

#[test]
fn test_pro_status_byte() {
    assert_eq!(get_pro_battery_status(0b0010_0000), battery(25, Status::Discharging));
    assert_eq!(get_pro_battery_status(0b0000_0000), battery(5, Status::Discharging));
    assert_eq!(get_pro_battery_status(0b0100_0000), battery(50, Status::Discharging));
    assert_eq!(get_pro_battery_status(0b0110_0000), battery(75, Status::Discharging));
    assert_eq!(get_pro_battery_status(0b1000_0000), battery(100, Status::Discharging));
    assert_eq!(get_pro_battery_status(0b1010_0000), battery(0, Status::Discharging));
    assert_eq!(get_pro_battery_status(0b1100_0000), battery(0, Status::Discharging));
    assert_eq!(get_pro_battery_status(0b1110_0000), battery(0, Status::Discharging));
    assert_eq!(get_pro_battery_status(0b0011_0000), battery(25, Status::Charging));
    assert_eq!(get_pro_battery_status(0b1001_0001), battery(100, Status::Charging));
    assert_eq!(get_pro_battery_status(0b1111_1111), battery(0, Status::Charging));
    // The host-powered bit and the low bits do not count.
    assert_eq!(get_pro_battery_status(0b0100_1111), battery(50, Status::Discharging));
}

#[test]
fn test_parse_pro_controller_data() {
    let device = record(0x057e, 0x2009, -1);
    let mut data = vec![0u8; 362];
    data[0] = 0x30;
    data[1] = 0x7f;
    data[2] = 0b0010_0000;
    let controller = parse_pro_controller_data(&device, &Probe::Report(data)).unwrap();
    assert_eq!(controller.name, "Pro Controller");
    assert_eq!(controller.capacity, 25);
    assert_eq!(controller.status, Status::Discharging);
    assert!(controller.bluetooth);
    assert_eq!(controller.vendor_id, 0x057e);
    assert_eq!(controller.product_id, 0x2009);

    let controller =
        parse_pro_controller_data(&device, &Probe::Report(vec![0x30, 0x00, 0x90])).unwrap();
    assert_eq!(controller.capacity, 100);
    assert_eq!(controller.status, Status::Charging);
}

#[test]
fn test_parse_pro_controller_data_without_a_report() {
    let device = record(0x057e, 0x2009, 0);
    for probe in [
        Probe::ReadFailed,
        Probe::Report(vec![]),
        Probe::Report(vec![0x30]),
        Probe::Report(vec![0x30, 0x00]),
    ] {
        let controller = parse_pro_controller_data(&device, &probe).unwrap();
        assert_eq!(controller.name, "Pro Controller");
        assert_eq!(controller.capacity, 0);
        assert_eq!(controller.status, Status::Unknown);
        assert!(!controller.bluetooth);
    }
    assert_eq!(
        parse_pro_controller_data(&device, &Probe::Unavailable).unwrap_err(),
        DeviceAccessError::OpenFailed
    );
    assert_eq!(
        parse_pro_controller_data(&device, &Probe::BluetoothInfo(vec![])).unwrap_err(),
        DeviceAccessError::OpenFailed
    );
}

#[test]
fn test_xbox_names() {
    assert_eq!(get_xbox_controller_name(0x02ea), "Xbox One S");
    assert_eq!(get_xbox_controller_name(0x02df), "Xbox One S");
    assert_eq!(get_xbox_controller_name(0x0b20), "Xbox One S");
    assert_eq!(get_xbox_controller_name(0x0b12), "Xbox Series X/S");
    assert_eq!(get_xbox_controller_name(0x0b13), "Xbox Series X/S");
    assert_eq!(get_xbox_controller_name(0x0b00), "Xbox Elite 2");
    assert_eq!(get_xbox_controller_name(0x0b05), "Xbox Elite 2");
    assert_eq!(get_xbox_controller_name(0x0b22), "Xbox Elite 2");
    assert_eq!(get_xbox_controller_name(0x02e0), "Xbox Unknown");
    assert_eq!(get_xbox_controller_name(0), "Xbox Unknown");
    assert_eq!(get_xbox_controller_name(0xffff), "Xbox Unknown");
}

#[test]
fn test_xbox_allow_list() {
    let known = [0x02ea, 0x02df, 0x0b20, 0x0b12, 0x0b13, 0x0b00, 0x0b05, 0x0b22];
    for product_id in 0..=0xffffu16 {
        assert_eq!(is_xbox_product_id(product_id), known.contains(&product_id));
        assert_eq!(
            is_xbox_product_id(product_id),
            get_xbox_controller_name(product_id) != "Xbox Unknown"
        );
    }
    assert!(is_xbox_controller(0x045e));
    assert!(!is_xbox_controller(0x045f));
    assert!(!is_xbox_controller(0));
}

#[test]
fn test_update_xbox_controller() {
    let mut controller = Controller {
        name: "Unknown Controller".to_string(),
        product_id: 0x0b12,
        vendor_id: 0x045e,
        capacity: 7,
        status: Status::Discharging,
        bluetooth: false,
        serial_number: Some("s".to_string()),
        device_path: Some("/devices/usb1".to_string()),
    };
    update_xbox_controller(&mut controller, false);
    assert_eq!(controller.name, "Xbox Series X/S");
    assert_eq!(controller.capacity, 100);
    assert_eq!(controller.status, Status::Charging);
    assert!(!controller.bluetooth);
    assert_eq!(controller.serial_number, Some("s".to_string()));
    assert_eq!(controller.device_path, Some("/devices/usb1".to_string()));

    controller.product_id = 0x1234;
    update_xbox_controller(&mut controller, true);
    assert_eq!(controller.name, "Xbox Unknown");
    assert_eq!(controller.capacity, 0);
    assert_eq!(controller.status, Status::Unknown);
    assert_eq!(controller.product_id, 0x1234);
    assert_eq!(controller.vendor_id, 0x045e);
}

#[test]
fn test_parse_xbox_controller_data() {
    let device = record(0x045e, 0x0b13, -1);
    let info = b"\tConnected: yes\n\tBattery Percentage: 0x28 (40)\n".to_vec();
    let controller = parse_xbox_controller_data(&device, &Probe::BluetoothInfo(info)).unwrap();
    assert_eq!(controller.name, "Xbox Series X/S");
    assert_eq!(controller.capacity, 40);
    assert_eq!(controller.status, Status::Unknown);
    assert!(controller.bluetooth);
    assert_eq!(controller.serial_number, Some("0123".to_string()));
}

#[test]
fn test_parse_xbox_controller_data_without_a_level() {
    let device = record(0x045e, 0x02df, -1);
    for probe in [
        Probe::Unavailable,
        Probe::ReadFailed,
        Probe::Report(b"Battery Percentage: 0x28 (40)".to_vec()),
        Probe::BluetoothInfo(vec![]),
        Probe::BluetoothInfo(b"Device not available".to_vec()),
    ] {
        assert_eq!(probe_capacity(&probe), 0);
        let controller = parse_xbox_controller_data(&device, &probe).unwrap();
        assert_eq!(controller.name, "Xbox One S");
        assert_eq!(controller.capacity, 0);
        assert_eq!(controller.status, Status::Unknown);
    }
}

#[test]
fn test_gulikit_controller() {
    let controller = parse_controller_data(&record(0x045e, 0x02e0, -1)).unwrap();
    assert_eq!(controller.name, "GuliKit Controller XW");
    assert_eq!(controller.capacity, 0);
    assert_eq!(controller.status, Status::Unknown);
    assert!(controller.bluetooth);
    assert_eq!(controller.vendor_id, 0x045e);
    assert_eq!(controller.product_id, 0x02e0);
    let controller = parse_controller_data(&record(0x045e, 0x02e0, 2)).unwrap();
    assert!(!controller.bluetooth);
}

#[test]
fn test_generic_names() {
    let probe = Probe::Unavailable;
    let cases = [
        (Some("Stadia-CG9S-4e9f"), "Stadia Controller"),
        (Some("Stadia"), "Stadia Controller"),
        (Some("StadiaX"), "Stadia Controller"),
        (Some("Stadi"), "Stadi"),
        (Some("stadia-1"), "stadia-1"),
        (Some(" Stadia"), " Stadia"),
        (Some("8BitDo Pro 2"), "8BitDo Pro 2"),
        (Some(""), ""),
        (Some("Contr\u{f4}leur"), "Contr\u{f4}leur"),
        (None, "Unknown Controller"),
    ];
    for (product, expected) in cases {
        let controller = get_controller_data(&named(product), &probe).unwrap();
        assert_eq!(controller.name, expected);
        assert_eq!(controller.capacity, 0);
        assert_eq!(controller.status, Status::Unknown);
    }
}

#[test]
fn test_generic_capacity() {
    let info = b"\tBattery Percentage: 0x0a (10)\n".to_vec();
    let controller =
        get_controller_data(&named(Some("8BitDo Pro 2")), &Probe::BluetoothInfo(info)).unwrap();
    assert_eq!(controller.capacity, 10);
    assert_eq!(controller.status, Status::Unknown);
    assert!(controller.bluetooth);
    assert_eq!(controller.device_path, Some("/dev/hidraw7".to_string()));
}

#[test]
fn test_ignored_vendors() {
    assert_eq!(IGNORED_VENDORS, [0x28de, 0x2808, 0x057e, 0x054c, 0x045e]);
    for vendor_id in 0..=0xffffu16 {
        assert_eq!(is_ignored(vendor_id), IGNORED_VENDORS.contains(&vendor_id));
    }
}
