use gamepad_discovery::family::Family;
use gamepad_discovery::report::decode_status_report;
use gamepad_discovery::text::parse_hex_u16;

fn report(id: u8, len: usize, offset: usize, status: u8) -> Vec<u8> {
    let mut r = vec![0u8; len];
    r[0] = id;
    r[offset] = status;
    r
}

#[test]
fn dualsense_usb_report() {
    let r = report(0x01, 64, 53, 0x17);
    assert_eq!(decode_status_report(Family::DualSense, &r), Some((75, true)));
    let full = report(0x01, 64, 53, 0x2a);
    assert_eq!(decode_status_report(Family::DualSenseEdge, &full), Some((100, false)));
}

#[test]
fn dualsense_bluetooth_report() {
    let r = report(0x31, 78, 54, 0x03);
    assert_eq!(decode_status_report(Family::DualSense, &r), Some((35, false)));
}

#[test]
fn dualshock4_reports() {
    assert_eq!(decode_status_report(Family::DualShock4, &report(0x01, 64, 30, 0x15)), Some((50, true)));
    assert_eq!(decode_status_report(Family::DualShock4, &report(0x11, 78, 32, 0x08)), Some((80, false)));
    assert_eq!(decode_status_report(Family::DualShock4, &report(0x01, 64, 30, 0x1b)), Some((100, false)));
}

#[test]
fn nintendo_report() {
    assert_eq!(decode_status_report(Family::Nintendo, &report(0x30, 49, 2, 0x81)), Some((100, false)));
    assert_eq!(decode_status_report(Family::Nintendo, &report(0x30, 49, 2, 0x50)), Some((50, true)));
}

#[test]
fn unknown_or_short_reports() {
    assert_eq!(decode_status_report(Family::DualSense, &vec![]), None);
    assert_eq!(decode_status_report(Family::DualSense, &vec![0x01, 0x00]), None);
    assert_eq!(decode_status_report(Family::DualSense, &report(0x05, 64, 53, 0x17)), None);
    assert_eq!(decode_status_report(Family::XboxOneS, &report(0x01, 64, 53, 0x17)), None);
}

#[test]
fn hex_identifiers() {
    assert_eq!(parse_hex_u16("045e"), Some(0x045e));
    assert_eq!(parse_hex_u16("0B13"), Some(0x0b13));
    assert_eq!(parse_hex_u16("ffff"), Some(0xffff));
    assert_eq!(parse_hex_u16("7"), Some(7));
    assert_eq!(parse_hex_u16(""), None);
    assert_eq!(parse_hex_u16("10000"), None);
    assert_eq!(parse_hex_u16("04g5"), None);
}
