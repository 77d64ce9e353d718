use controller_battery::api::playstation::{
    get_battery_status, get_ds3_battery_status, get_dualshock_battery_status,
    parse_dualsense_controller_data, parse_dualshock3_controller_data,
    parse_dualshock_controller_data, read_dualsense_report, read_dualshock3_report,
    read_dualshock_report, DualShock4InputReportCommon, DS3_INPUT_REPORT_SIZE,
    DS4_BT_TOUCH_REPORTS, DS4_INPUT_REPORT_BT_COMMON_OFFSET, DS4_INPUT_REPORT_BT_SIZE,
    DS4_INPUT_REPORT_COMMON_SIZE, DS4_INPUT_REPORT_USB_COMMON_OFFSET, DS4_INPUT_REPORT_USB_SIZE,
    DS4_TOUCH_REPORT_SIZE, DS4_USB_TOUCH_REPORTS, DS_INPUT_REPORT_BT_SIZE,
    DS_INPUT_REPORT_USB_SIZE,
};
use controller_battery::api::{DeviceAccessError, Probe};
use controller_battery::bindings::DUALSENSE_INPUT_REPORT_SIZE;
use controller_battery::controller::{BatteryInfo, HidDeviceInfo, Status};

fn sony(product_id: u16, interface_number: i32) -> HidDeviceInfo {
    HidDeviceInfo {
        vendor_id: 0x054c,
        product_id,
        interface_number,
        serial_number: Some("a0:ab:51:00:11:22".to_string()),
        path: "/dev/hidraw4".to_string(),
        product_string: Some("Wireless Controller".to_string()),
    }
}

fn report(size: usize, id: u8, status_at: usize, status: u8) -> Vec<u8> {
    let mut data = vec![0u8; size];
    data[0] = id;
    data[status_at] = status;
    data
}

fn battery(capacity: u8, status: Status) -> BatteryInfo {
    BatteryInfo { capacity, status }
}

#[test]
fn test_dualsense_input_report_struct_size() {
    // Common input report size equals the size of the USB report minus 1 byte for the ReportID
    assert_eq!(DUALSENSE_INPUT_REPORT_SIZE, DS_INPUT_REPORT_USB_SIZE - 1);
}

#[test]
fn test_dualshock_report_sizes() {
    assert_eq!(
        DS4_INPUT_REPORT_USB_COMMON_OFFSET
            + DS4_INPUT_REPORT_COMMON_SIZE
            + 1
            + DS4_USB_TOUCH_REPORTS * DS4_TOUCH_REPORT_SIZE
            + 3,
        DS4_INPUT_REPORT_USB_SIZE
    );
    assert_eq!(
        DS4_INPUT_REPORT_BT_COMMON_OFFSET
            + DS4_INPUT_REPORT_COMMON_SIZE
            + 1
            + DS4_BT_TOUCH_REPORTS * DS4_TOUCH_REPORT_SIZE
            + 2
            + 4,
        DS4_INPUT_REPORT_BT_SIZE
    );
}

#[test]
fn test_battery_status_table() {
    assert_eq!(get_battery_status(0x0, 0), battery(5, Status::Discharging));
    assert_eq!(get_battery_status(0x0, 2), battery(25, Status::Discharging));
    assert_eq!(get_battery_status(0x0, 9), battery(95, Status::Discharging));
    assert_eq!(get_battery_status(0x0, 10), battery(100, Status::Discharging));
    assert_eq!(get_battery_status(0x0, 15), battery(100, Status::Discharging));
    assert_eq!(get_battery_status(0x1, 2), battery(25, Status::Charging));
    assert_eq!(get_battery_status(0x1, 10), battery(100, Status::Charging));
    assert_eq!(get_battery_status(0x2, 3), battery(35, Status::Charging));
    assert_eq!(get_battery_status(0x2, 11), battery(100, Status::Charging));
    assert_eq!(get_battery_status(0xa, 7), battery(0, Status::NotCharging));
    assert_eq!(get_battery_status(0xb, 7), battery(0, Status::NotCharging));
    assert_eq!(get_battery_status(0xf, 7), battery(0, Status::Unknown));
    assert_eq!(get_battery_status(0x3, 7), battery(0, Status::Unknown));
    assert_eq!(get_battery_status(0xff, 7), battery(0, Status::Unknown));
}

#[test]
fn test_battery_status_any_level() {
    for code in 0..=255u8 {
        for level in 0..=255u8 {
            let reading = get_battery_status(code, level);
            assert!(reading.capacity <= 100);
            if code <= 2 {
                let expected = std::cmp::min(level as u32 * 10 + 5, 100);
                assert_eq!(reading.capacity as u32, expected);
            } else {
                assert_eq!(reading.capacity, 0);
            }
        }
    }
}

#[test]
fn test_dualsense_status_byte() {
    // charge code 1, level 2
    let data = report(64, 0x01, 53, 0x12);
    assert_eq!(read_dualsense_report(false, &data), battery(25, Status::Charging));
    let data = report(78, 0x31, 54, 0x12);
    assert_eq!(read_dualsense_report(true, &data), battery(25, Status::Charging));
    let data = report(64, 0x01, 53, 0x08);
    assert_eq!(read_dualsense_report(false, &data), battery(85, Status::Discharging));
    let data = report(64, 0x01, 53, 0x2a);
    assert_eq!(read_dualsense_report(false, &data), battery(100, Status::Charging));
    let data = report(64, 0x01, 53, 0xa5);
    assert_eq!(read_dualsense_report(false, &data), battery(0, Status::NotCharging));
    let data = report(64, 0x01, 53, 0xb5);
    assert_eq!(read_dualsense_report(false, &data), battery(0, Status::NotCharging));
    let data = report(64, 0x01, 53, 0xf5);
    assert_eq!(read_dualsense_report(false, &data), battery(0, Status::Unknown));
    let data = report(64, 0x01, 53, 0x75);
    assert_eq!(read_dualsense_report(false, &data), battery(0, Status::Unknown));
}

#[test]
fn test_dualsense_status_byte_position() {
    // Only the byte at the status offset decides.
    for at in 1..64usize {
        let data = report(64, 0x01, at, 0x12);
        let expected = if at == 53 {
            battery(25, Status::Charging)
        } else {
            battery(5, Status::Discharging)
        };
        assert_eq!(read_dualsense_report(false, &data), expected, "byte {}", at);
    }
    for at in 1..78usize {
        let data = report(78, 0x31, at, 0x12);
        let expected = if at == 54 {
            battery(25, Status::Charging)
        } else {
            battery(5, Status::Discharging)
        };
        assert_eq!(read_dualsense_report(true, &data), expected, "byte {}", at);
    }
}

#[test]
fn test_dualsense_unhandled_reports() {
    let unknown = battery(0, Status::Unknown);
    // The framing of the other transport.
    assert_eq!(read_dualsense_report(true, &report(64, 0x01, 53, 0x12)), unknown);
    assert_eq!(read_dualsense_report(false, &report(78, 0x31, 54, 0x12)), unknown);
    // The wrong id or size.
    assert_eq!(read_dualsense_report(false, &report(64, 0x31, 53, 0x12)), unknown);
    assert_eq!(read_dualsense_report(false, &report(63, 0x01, 53, 0x12)), unknown);
    assert_eq!(read_dualsense_report(false, &report(65, 0x01, 53, 0x12)), unknown);
    assert_eq!(read_dualsense_report(true, &report(77, 0x31, 54, 0x12)), unknown);
    assert_eq!(read_dualsense_report(true, &report(78, 0x01, 54, 0x12)), unknown);
    assert_eq!(read_dualsense_report(false, &[]), unknown);
    assert_eq!(read_dualsense_report(true, &[]), unknown);
    assert_eq!(DS_INPUT_REPORT_BT_SIZE, 78);
}

#[test]
fn test_parse_dualsense_controller_data() {
    let device = sony(0x0ce6, 1);
    let probe = Probe::Report(report(64, 0x01, 53, 0x12));
    let controller = parse_dualsense_controller_data(&device, &probe, "DualSense").unwrap();
    assert_eq!(controller.name, "DualSense");
    assert_eq!(controller.capacity, 25);
    assert_eq!(controller.status, Status::Charging);
    assert!(!controller.bluetooth);
    assert_eq!(controller.vendor_id, 0x054c);
    assert_eq!(controller.product_id, 0x0ce6);
    assert_eq!(controller.device_path, Some("/dev/hidraw4".to_string()));

    let device = sony(0x0df2, -1);
    let probe = Probe::Report(report(78, 0x31, 54, 0x03));
    let controller = parse_dualsense_controller_data(&device, &probe, "DualSense Edge").unwrap();
    assert_eq!(controller.name, "DualSense Edge");
    assert_eq!(controller.capacity, 35);
    assert_eq!(controller.status, Status::Discharging);
    assert!(controller.bluetooth);

    // An unhandled report still gives the controller, with nothing known.
    let probe = Probe::Report(vec![0x01, 0x02]);
    let controller = parse_dualsense_controller_data(&device, &probe, "DualSense Edge").unwrap();
    assert_eq!(controller.capacity, 0);
    assert_eq!(controller.status, Status::Unknown);
}

#[test]
fn test_playstation_device_errors() {
    let device = sony(0x0ce6, 1);
    assert_eq!(
        parse_dualsense_controller_data(&device, &Probe::Unavailable, "DualSense").unwrap_err(),
        DeviceAccessError::OpenFailed
    );
    assert_eq!(
        parse_dualsense_controller_data(&device, &Probe::ReadFailed, "DualSense").unwrap_err(),
        DeviceAccessError::ReadFailed
    );
    assert_eq!(
        parse_dualsense_controller_data(&device, &Probe::BluetoothInfo(vec![]), "DualSense")
            .unwrap_err(),
        DeviceAccessError::OpenFailed
    );
    assert_eq!(
        parse_dualshock_controller_data(&device, &Probe::Unavailable).unwrap_err(),
        DeviceAccessError::OpenFailed
    );
    assert_eq!(
        parse_dualshock_controller_data(&device, &Probe::ReadFailed).unwrap_err(),
        DeviceAccessError::ReadFailed
    );
    assert_eq!(
        parse_dualshock3_controller_data(&device, &Probe::Unavailable, "DualShock 3").unwrap_err(),
        DeviceAccessError::OpenFailed
    );
    assert_eq!(
        parse_dualshock3_controller_data(&device, &Probe::ReadFailed, "DualShock 3").unwrap_err(),
        DeviceAccessError::ReadFailed
    );
}

#[test]
fn test_dualshock_status_byte() {
    // No cable: the pad discharges.
    assert_eq!(get_dualshock_battery_status(0x00), battery(5, Status::Discharging));
    assert_eq!(get_dualshock_battery_status(0x05), battery(55, Status::Discharging));
    assert_eq!(get_dualshock_battery_status(0x0a), battery(100, Status::Discharging));
    assert_eq!(get_dualshock_battery_status(0x0f), battery(100, Status::Discharging));
    // Cable: charging up to level 10, full at 11, an error above.
    assert_eq!(get_dualshock_battery_status(0x10), battery(5, Status::Charging));
    assert_eq!(get_dualshock_battery_status(0x17), battery(75, Status::Charging));
    assert_eq!(get_dualshock_battery_status(0x1a), battery(100, Status::Charging));
    assert_eq!(get_dualshock_battery_status(0x1b), battery(100, Status::Charging));
    assert_eq!(get_dualshock_battery_status(0x1c), battery(0, Status::Unknown));
    assert_eq!(get_dualshock_battery_status(0x1f), battery(0, Status::Unknown));
    // The other bits of the byte do not count.
    assert_eq!(get_dualshock_battery_status(0xe5), battery(55, Status::Discharging));
    assert_eq!(get_dualshock_battery_status(0xf7), battery(75, Status::Charging));
}

#[test]
fn test_dualshock_reports() {
    let unknown = battery(0, Status::Unknown);
    let data = report(64, 0x01, 30, 0x17);
    assert_eq!(read_dualshock_report(false, &data), battery(75, Status::Charging));
    let data = report(78, 0x11, 32, 0x03);
    assert_eq!(read_dualshock_report(true, &data), battery(35, Status::Discharging));
    for at in 1..64usize {
        let data = report(64, 0x01, at, 0x17);
        let expected = if at == 30 {
            battery(75, Status::Charging)
        } else {
            battery(5, Status::Discharging)
        };
        assert_eq!(read_dualshock_report(false, &data), expected, "byte {}", at);
    }
    for at in 1..78usize {
        let data = report(78, 0x11, at, 0x17);
        let expected = if at == 32 {
            battery(75, Status::Charging)
        } else {
            battery(5, Status::Discharging)
        };
        assert_eq!(read_dualshock_report(true, &data), expected, "byte {}", at);
    }
    assert_eq!(read_dualshock_report(true, &report(64, 0x01, 30, 0x17)), unknown);
    assert_eq!(read_dualshock_report(false, &report(78, 0x11, 32, 0x17)), unknown);
    assert_eq!(read_dualshock_report(false, &report(64, 0x11, 30, 0x17)), unknown);
    assert_eq!(read_dualshock_report(false, &report(40, 0x01, 30, 0x17)), unknown);
    assert_eq!(read_dualshock_report(false, &[]), unknown);
}

#[test]
fn test_parse_dualshock_controller_data() {
    let device = sony(0x09cc, 0);
    let probe = Probe::Report(report(64, 0x01, 30, 0x1b));
    let controller = parse_dualshock_controller_data(&device, &probe).unwrap();
    assert_eq!(controller.name, "DualShock 4");
    assert_eq!(controller.capacity, 100);
    assert_eq!(controller.status, Status::Charging);
    let probe = Probe::Report(vec![]);
    let controller = parse_dualshock_controller_data(&device, &probe).unwrap();
    assert_eq!(controller.capacity, 0);
    assert_eq!(controller.status, Status::Unknown);
}

#[test]
fn test_dualshock_common_layout() {
    let bytes: Vec<u8> = (0..40u8).collect();
    let common = DualShock4InputReportCommon::parse(&bytes, 1).unwrap();
    assert_eq!(common.x, 1);
    assert_eq!(common.y, 2);
    assert_eq!(common.rx, 3);
    assert_eq!(common.ry, 4);
    assert_eq!(common.buttons, [5, 6, 7]);
    assert_eq!(common.z, 8);
    assert_eq!(common.rz, 9);
    assert_eq!(common.sensor_timestamp, 10 + 256 * 11);
    assert_eq!(common.sensor_temperature, 12);
    assert_eq!(common.gyro, [13 + 256 * 14, 15 + 256 * 16, 17 + 256 * 18]);
    assert_eq!(common.accel, [19 + 256 * 20, 21 + 256 * 22, 23 + 256 * 24]);
    assert_eq!(common.reserved2, [25, 26, 27, 28, 29]);
    assert_eq!(common.status, [30, 31]);
    assert_eq!(common.reserved3, 32);
    assert!(DualShock4InputReportCommon::parse(&bytes, 8).is_some());
    assert!(DualShock4InputReportCommon::parse(&bytes, 9).is_none());
    assert!(DualShock4InputReportCommon::parse(&bytes, usize::MAX).is_none());
    assert!(DualShock4InputReportCommon::parse(&[], 0).is_none());
}

#[test]
fn test_ds3_battery_byte() {
    assert_eq!(get_ds3_battery_status(0xee), battery(75, Status::Charging));
    assert_eq!(get_ds3_battery_status(0xef), battery(100, Status::Unknown));
    assert_eq!(get_ds3_battery_status(0xf0), battery(75, Status::Charging));
    assert_eq!(get_ds3_battery_status(0xff), battery(100, Status::Unknown));
    assert_eq!(get_ds3_battery_status(0x00), battery(0, Status::Discharging));
    assert_eq!(get_ds3_battery_status(0x01), battery(1, Status::Discharging));
    assert_eq!(get_ds3_battery_status(0x02), battery(25, Status::Discharging));
    assert_eq!(get_ds3_battery_status(0x03), battery(50, Status::Discharging));
    assert_eq!(get_ds3_battery_status(0x04), battery(75, Status::Discharging));
    assert_eq!(get_ds3_battery_status(0x05), battery(100, Status::Discharging));
    assert_eq!(get_ds3_battery_status(0x06), battery(100, Status::Discharging));
    assert_eq!(get_ds3_battery_status(0xed), battery(100, Status::Discharging));
}

#[test]
fn test_ds3_reports() {
    let unknown = battery(0, Status::Unknown);
    let data = report(DS3_INPUT_REPORT_SIZE, 0x01, 30, 0x02);
    assert_eq!(read_dualshock3_report(&data), battery(25, Status::Discharging));
    let data = report(49, 0x01, 30, 0xee);
    assert_eq!(read_dualshock3_report(&data), battery(75, Status::Charging));
    // The pad is not active.
    assert_eq!(read_dualshock3_report(&[]), unknown);
    // The noise frame.
    let mut data = report(49, 0x01, 30, 0x02);
    data[1] = 0xff;
    assert_eq!(read_dualshock3_report(&data), unknown);
    // Another report or another size.
    assert_eq!(read_dualshock3_report(&report(49, 0x02, 30, 0x02)), unknown);
    assert_eq!(read_dualshock3_report(&report(48, 0x01, 30, 0x02)), unknown);
    assert_eq!(read_dualshock3_report(&report(50, 0x01, 30, 0x02)), unknown);
    assert_eq!(read_dualshock3_report(&[0x01]), unknown);
}

#[test]
fn test_parse_dualshock3_controller_data() {
    let device = sony(0x0268, 0);
    let probe = Probe::Report(report(49, 0x01, 30, 0x02));
    let controller = parse_dualshock3_controller_data(&device, &probe, "DualShock 3").unwrap();
    assert_eq!(controller.name, "DualShock 3");
    assert_eq!(controller.capacity, 25);
    assert_eq!(controller.status, Status::Discharging);
    let probe = Probe::Report(vec![]);
    let controller = parse_dualshock3_controller_data(&device, &probe, "DualShock 3").unwrap();
    assert_eq!(controller.capacity, 0);
    assert_eq!(controller.status, Status::Unknown);
}

#[test]
fn test_every_status_byte_gives_a_percentage() {
    for status in 0..=255u8 {
        assert!(read_dualsense_report(false, &report(64, 0x01, 53, status)).capacity <= 100);
        assert!(read_dualsense_report(true, &report(78, 0x31, 54, status)).capacity <= 100);
        assert!(read_dualshock_report(false, &report(64, 0x01, 30, status)).capacity <= 100);
        assert!(read_dualshock_report(true, &report(78, 0x11, 32, status)).capacity <= 100);
        assert!(read_dualshock3_report(&report(49, 0x01, 30, status)).capacity <= 100);
    }
}
