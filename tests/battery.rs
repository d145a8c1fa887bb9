use gamepad_discovery::battery::{
    heuristic_default, resolve_accessory, resolve_chain, resolve_report,
};
use gamepad_discovery::controller::{inject_fixture, Controller, Status};
use gamepad_discovery::family::{
    classify, controller_name, Family, MS_VENDOR_ID, XBOX_ACCESSORY_PID,
    XBOX_WIRELESS_CONTROLLER_BT_PRODUCT_ID,
};
use gamepad_discovery::power_info::parse_percentage;
use gamepad_discovery::power_path::{battery_segment, find_battery_device, find_by_model, is_battery_name};
use gamepad_discovery::record::{RawDeviceRecord, Source};
use gamepad_discovery::text::{same_text, starts_with};
use gamepad_discovery::xbox::{
    get_xbox_controller_name, is_xbox_controller, parse_xbox_controller_data,
    update_xbox_controller,
};

fn controller(product_id: u16, gip: &str) -> Controller {
    Controller {
        name: "Unknown Controller".to_string(),
        vendor_id: MS_VENDOR_ID,
        product_id,
        family: classify(MS_VENDOR_ID, product_id),
        capacity: 0,
        status: Status::Unknown,
        gip: gip.to_string(),
        is_fake: false,
    }
}

#[test]
fn usb_default_is_full_and_charging() {
    let r = resolve_chain(&vec![None, None, None], false);
    assert_eq!(r.capacity, 100);
    assert_eq!(r.status, Status::Charging);
    assert_eq!(heuristic_default(false), r);
}

#[test]
fn bluetooth_default_is_empty_and_unknown() {
    let r = resolve_chain(&Vec::new(), true);
    assert_eq!(r.capacity, 0);
    assert_eq!(r.status, Status::Unknown);
}

#[test]
fn every_tier_caps_capacity() {
    assert_eq!(resolve_chain(&vec![Some(255)], true).capacity, 100);
    assert_eq!(resolve_accessory(Some(101)).capacity, 100);
    assert_eq!(resolve_report(200, false).capacity, 100);
    assert_eq!(resolve_report(100, false).capacity, 100);
    assert_eq!(resolve_chain(&vec![Some(0)], false).capacity, 0);
}

#[test]
fn accessory_is_always_charging() {
    let failed = resolve_accessory(None);
    assert_eq!(failed.capacity, 0);
    assert_eq!(failed.status, Status::Charging);
    let read = resolve_accessory(Some(55));
    assert_eq!(read.capacity, 55);
    assert_eq!(read.status, Status::Charging);
}

#[test]
fn fixture_adds_one_fake_controller() {
    let mut list = vec![controller(XBOX_WIRELESS_CONTROLLER_BT_PRODUCT_ID, "gip1.0")];
    inject_fixture(&mut list, Some(controller(XBOX_ACCESSORY_PID, "fake")));
    assert_eq!(list.len(), 2);
    assert!(list[1].is_fake);
    assert!(!list[0].is_fake);
    assert_eq!(list[1].gip, "fake");
}

#[test]
fn fixture_without_hardware_adds_one() {
    let mut list: Vec<Controller> = Vec::new();
    let mut fixture = controller(0x0b13, "fake");
    fixture.capacity = 180;
    inject_fixture(&mut list, Some(fixture));
    assert_eq!(list.len(), 1);
    assert!(list[0].is_fake);
    assert_eq!(list[0].capacity, 100);
}

#[test]
fn malformed_fixture_adds_nothing() {
    let mut list = vec![controller(XBOX_WIRELESS_CONTROLLER_BT_PRODUCT_ID, "gip1.0")];
    inject_fixture(&mut list, None);
    assert_eq!(list.len(), 1);
}

#[test]
fn gip_device_takes_its_lookup() {
    let mut c = controller(XBOX_WIRELESS_CONTROLLER_BT_PRODUCT_ID, "gip1.0");
    update_xbox_controller(&mut c, false, Some(73));
    assert_eq!(c.name, "Xbox Series X/S");
    assert_eq!(c.capacity, 73);
    assert_eq!(c.status, Status::Unknown);
    assert_eq!(c.gip, "gip1.0");
}

#[test]
fn gip_device_falls_back_to_default() {
    let mut c = controller(XBOX_WIRELESS_CONTROLLER_BT_PRODUCT_ID, "gip1.0");
    update_xbox_controller(&mut c, false, None);
    assert_eq!(c.capacity, 100);
    assert_eq!(c.status, Status::Charging);
    let mut b = controller(XBOX_WIRELESS_CONTROLLER_BT_PRODUCT_ID, "gip1.0");
    update_xbox_controller(&mut b, true, None);
    assert_eq!(b.capacity, 0);
    assert_eq!(b.status, Status::Unknown);
}

#[test]
fn input_device_takes_default() {
    let mut c = controller(0x0b00, "input12");
    update_xbox_controller(&mut c, false, Some(10));
    assert_eq!(c.name, "Xbox Elite 2");
    assert_eq!(c.capacity, 100);
    assert_eq!(c.status, Status::Charging);
    let mut b = controller(0x0b00, "input12");
    update_xbox_controller(&mut b, true, Some(10));
    assert_eq!(b.capacity, 0);
    assert_eq!(b.status, Status::Unknown);
}

#[test]
fn accessory_update_without_lookup() {
    let mut c = controller(XBOX_ACCESSORY_PID, "gip0.2");
    update_xbox_controller(&mut c, false, None);
    assert_eq!(c.name, "Wireless Adapter");
    assert_eq!(c.capacity, 0);
    assert_eq!(c.status, Status::Charging);
}

#[test]
fn xbox_hid_controller_uses_chain() {
    let record = RawDeviceRecord {
        vendor_id: MS_VENDOR_ID,
        product_id: 0x02df,
        serial_number: Some("serial".to_string()),
        interface_number: Some(-1),
        path: "/dev/hidraw1".to_string(),
        source: Source::Hid,
    };
    let c = parse_xbox_controller_data(&record, &vec![None, Some(64)]);
    assert_eq!(c.name, "Xbox One S");
    assert_eq!(c.family, Family::XboxOneS);
    assert_eq!(c.capacity, 64);
    assert_eq!(c.gip, "serial");
    let d = parse_xbox_controller_data(&record, &vec![None, None]);
    assert_eq!(d.capacity, 0);
    assert_eq!(d.status, Status::Unknown);
}

#[test]
fn xbox_names() {
    assert_eq!(get_xbox_controller_name(0x02ea), "Xbox One S");
    assert_eq!(get_xbox_controller_name(0x0b20), "Xbox One S");
    assert_eq!(get_xbox_controller_name(0x0b12), "Xbox Series X/S");
    assert_eq!(get_xbox_controller_name(0x0b22), "Xbox Elite 2");
    assert_eq!(get_xbox_controller_name(0x02fe), "Wireless Adapter");
    assert_eq!(get_xbox_controller_name(0x1111), "Xbox Unknown");
    assert!(is_xbox_controller(0x045e));
    assert!(!is_xbox_controller(0x054c));
}

#[test]
fn classification_table() {
    assert_eq!(classify(0x054c, 0x0268), Family::DualShock3);
    assert_eq!(classify(0x054c, 0x05c4), Family::DualShock4);
    assert_eq!(classify(0x054c, 0x09cc), Family::DualShock4);
    assert_eq!(classify(0x054c, 0x0ce6), Family::DualSense);
    assert_eq!(classify(0x054c, 0x0df2), Family::DualSenseEdge);
    assert_eq!(classify(0x054c, 0x0001), Family::GenericUnknown);
    assert_eq!(classify(0x057e, 0x2006), Family::Nintendo);
    assert_eq!(classify(0x045e, 0x0b05), Family::XboxEliteGen2);
    assert_eq!(classify(0x045e, 0x02fe), Family::XboxAccessory);
    assert_eq!(classify(0x1234, 0x0b05), Family::GenericUnknown);
    assert_eq!(controller_name(0x054c, 0x0268), "DualShock3");
    assert_eq!(controller_name(0x1234, 0x0001), "Unknown Controller");
    assert_eq!(controller_name(0x045e, 0x0001), "Xbox Unknown");
}

#[test]
fn battery_path_matches_normalized_token() {
    let paths = vec![
        "/org/freedesktop/UPower/devices/line_power_AC".to_string(),
        "/org/freedesktop/UPower/devices/battery_gip1x1".to_string(),
        "/org/freedesktop/UPower/devices/battery_gip1x0".to_string(),
    ];
    assert_eq!(find_battery_device(&paths, "gip1.0"), Some(2));
    assert_eq!(find_battery_device(&paths, "gip1.1"), Some(1));
    assert_eq!(find_battery_device(&paths, "gip2.0"), None);
    assert_eq!(find_battery_device(&Vec::new(), "gip1.0"), None);
}

#[test]
fn only_the_first_battery_segment_counts() {
    let paths = vec!["/x/battery_other/battery_gip1x0".to_string()];
    assert_eq!(find_battery_device(&paths, "gip1.0"), None);
    let seg = battery_segment("/a/battery_gip3x0/b").unwrap();
    assert_eq!(seg.iter().collect::<String>(), "battery_gip3x0");
    assert!(battery_segment("/a/b").is_none());
    assert!(is_battery_name(&"battery_gip3x0".chars().collect(), "gip3.0"));
    assert!(!is_battery_name(&"battery_gip3.0".chars().collect(), "gip3.0"));
}

#[test]
fn text_helpers() {
    assert!(starts_with("gip0.3", "gip"));
    assert!(!starts_with("gi", "gip"));
    assert!(starts_with("input", "input"));
    assert!(same_text("gip0.1", "gip0.1"));
    assert!(!same_text("gip0.1", "gip0.10"));
}

#[test]
fn percentage_field_is_read() {
    let out = "  native-path:          gip1.0\n  model:                Xbox\n    percentage:          87%\n";
    assert_eq!(parse_percentage(out), Some(87));
    assert_eq!(parse_percentage("percentage:\t100%"), Some(100));
    assert_eq!(parse_percentage("percentage:0"), Some(0));
}

#[test]
fn percentage_field_rejects_bad_values() {
    assert_eq!(parse_percentage("percentage: 101%"), None);
    assert_eq!(parse_percentage("percentage: 99999999999999%"), None);
    assert_eq!(parse_percentage("percentage: unknown"), None);
    assert_eq!(parse_percentage("state: charging"), None);
    assert_eq!(parse_percentage(""), None);
}

#[test]
fn percentage_uses_first_label() {
    assert_eq!(parse_percentage("percentage: 40%\npercentage: 60%"), Some(40));
    assert_eq!(parse_percentage("percentage: 40.5%"), Some(40));
}

#[test]
fn model_lookup_finds_first_match() {
    let models = vec!["Mouse".to_string(), "Xbox Elite 2".to_string(), "Xbox Elite 2".to_string()];
    assert_eq!(find_by_model(&models, "Xbox Elite 2"), Some(1));
    assert_eq!(find_by_model(&models, "Xbox One S"), None);
}
