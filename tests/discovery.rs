use gamepad_discovery::battery::{heuristic_default, resolve_chain};
use gamepad_discovery::controller::Status;
use gamepad_discovery::dedup::{dedup_by_serial, dedup_by_token, filter_records, Selector};
use gamepad_discovery::discovery::{assemble, parse_reported_controller, plan_discovery};
use gamepad_discovery::family::{
    Family, DS_EDGE_PRODUCT_ID, DS_PRODUCT_ID, DS_VENDOR_ID, MS_VENDOR_ID,
    PRODUCT_ID_NINTENDO_PROCON, VENDOR_ID_NINTENDO, XBOX_WIRELESS_CONTROLLER_BT_PRODUCT_ID,
    XBOX_WIRELESS_CONTROLLER_USB_PRODUCT_ID,
};
use gamepad_discovery::record::{RawDeviceRecord, Source};

fn hid(vendor_id: u16, product_id: u16, serial: Option<&str>, interface: i32, path: &str) -> RawDeviceRecord {
    RawDeviceRecord {
        vendor_id,
        product_id,
        serial_number: serial.map(|s| s.to_string()),
        interface_number: Some(interface),
        path: path.to_string(),
        source: Source::Hid,
    }
}

fn input(vendor_id: u16, product_id: u16, token: &str) -> RawDeviceRecord {
    RawDeviceRecord {
        vendor_id,
        product_id,
        serial_number: None,
        interface_number: None,
        path: token.to_string(),
        source: Source::OsSubsystem,
    }
}

fn procon(interface: i32, path: &str) -> RawDeviceRecord {
    hid(VENDOR_ID_NINTENDO, PRODUCT_ID_NINTENDO_PROCON, Some("pro"), interface, path)
}

#[test]
fn dualsense_record_gives_one_dualsense_controller() {
    let records = vec![hid(DS_VENDOR_ID, DS_PRODUCT_ID, Some("aa:bb"), -1, "/dev/hidraw0")];
    let plan = plan_discovery(&records, &Vec::new());
    assert_eq!(plan.hid, vec![0]);
    assert!(plan.os.is_empty());
    let c = parse_reported_controller(&records[plan.hid[0]], 80, false);
    assert_eq!(c.family, Family::DualSense);
    assert_eq!(c.name, "DualSense");
    assert_eq!(c.capacity, 80);
    assert_eq!(c.status, Status::Unknown);
    assert_eq!(c.gip, "aa:bb");
    assert!(!c.is_fake);
}

#[test]
fn three_pro_records_select_the_bluetooth_one() {
    let records = vec![
        hid(VENDOR_ID_NINTENDO, PRODUCT_ID_NINTENDO_PROCON, None, 0, "usb-a"),
        hid(VENDOR_ID_NINTENDO, PRODUCT_ID_NINTENDO_PROCON, None, -1, "bt"),
        hid(VENDOR_ID_NINTENDO, PRODUCT_ID_NINTENDO_PROCON, None, 0, "usb-b"),
    ];
    let plan = plan_discovery(&records, &Vec::new());
    assert_eq!(plan.hid, vec![1]);
    let controllers: Vec<_> = plan
        .hid
        .iter()
        .map(|&i| parse_reported_controller(&records[i], 60, false))
        .collect();
    assert_eq!(controllers.len(), 1);
    assert_eq!(controllers[0].gip, "bt");
    assert_eq!(controllers[0].family, Family::Nintendo);
}

#[test]
fn one_or_two_pro_records_give_the_first() {
    let one = vec![procon(-1, "bt")];
    assert_eq!(plan_discovery(&one, &Vec::new()).hid, vec![0]);
    let two = vec![procon(0, "usb-a"), procon(0, "usb-b")];
    assert_eq!(plan_discovery(&two, &Vec::new()).hid, vec![0]);
}

#[test]
fn unexpected_pro_record_counts_give_none() {
    let three_usb = vec![procon(0, "a"), procon(0, "b"), procon(0, "c")];
    assert!(plan_discovery(&three_usb, &Vec::new()).hid.is_empty());
    let four = vec![procon(-1, "a"), procon(0, "b"), procon(0, "c"), procon(0, "d")];
    assert!(plan_discovery(&four, &Vec::new()).hid.is_empty());
}

#[test]
fn other_nintendo_records_are_each_kept() {
    let records = vec![
        hid(VENDOR_ID_NINTENDO, 0x2006, Some("j"), -1, "left"),
        hid(VENDOR_ID_NINTENDO, 0x2006, Some("j"), -1, "left-again"),
    ];
    assert_eq!(plan_discovery(&records, &Vec::new()).hid, vec![0, 1]);
}

#[test]
fn adjacent_equal_serials_collapse() {
    let records = vec![
        hid(DS_VENDOR_ID, DS_PRODUCT_ID, Some("a"), 3, "hid0"),
        hid(DS_VENDOR_ID, DS_PRODUCT_ID, Some("a"), 3, "hid1"),
        hid(DS_VENDOR_ID, DS_EDGE_PRODUCT_ID, Some("b"), 3, "hid2"),
    ];
    assert_eq!(plan_discovery(&records, &Vec::new()).hid, vec![0, 2]);
}

#[test]
fn separated_equal_serials_do_not_collapse() {
    let records = vec![
        hid(DS_VENDOR_ID, DS_PRODUCT_ID, Some("a"), 3, "hid0"),
        hid(DS_VENDOR_ID, DS_EDGE_PRODUCT_ID, Some("b"), 3, "hid1"),
        hid(DS_VENDOR_ID, DS_PRODUCT_ID, Some("a"), 3, "hid2"),
    ];
    assert_eq!(plan_discovery(&records, &Vec::new()).hid, vec![0, 1, 2]);
}

#[test]
fn missing_serials_compare_equal() {
    let records = vec![
        hid(DS_VENDOR_ID, DS_PRODUCT_ID, None, 3, "hid0"),
        hid(DS_VENDOR_ID, DS_PRODUCT_ID, None, 3, "hid1"),
    ];
    let all = filter_records(&records, Selector::AnyRecord);
    assert_eq!(dedup_by_serial(&records, &all), vec![0]);
}

#[test]
fn xbox_records_dedup_by_adjacent_serial() {
    let records = vec![
        hid(MS_VENDOR_ID, XBOX_WIRELESS_CONTROLLER_BT_PRODUCT_ID, Some("x"), -1, "a"),
        hid(MS_VENDOR_ID, XBOX_WIRELESS_CONTROLLER_BT_PRODUCT_ID, Some("x"), -1, "b"),
        hid(MS_VENDOR_ID, XBOX_WIRELESS_CONTROLLER_BT_PRODUCT_ID, Some("y"), -1, "c"),
        hid(MS_VENDOR_ID, XBOX_WIRELESS_CONTROLLER_BT_PRODUCT_ID, Some("x"), -1, "d"),
    ];
    assert_eq!(plan_discovery(&records, &Vec::new()).hid, vec![0, 2, 3]);
}

#[test]
fn xbox_usb_records_are_not_reported() {
    let records = vec![hid(MS_VENDOR_ID, XBOX_WIRELESS_CONTROLLER_USB_PRODUCT_ID, Some("x"), 0, "a")];
    assert!(plan_discovery(&records, &Vec::new()).hid.is_empty());
}

#[test]
fn unknown_hid_records_are_not_reported() {
    let records = vec![hid(0x1234, 0x5678, Some("z"), 0, "a")];
    assert!(plan_discovery(&records, &Vec::new()).hid.is_empty());
}

#[test]
fn families_come_in_order() {
    let records = vec![
        hid(DS_VENDOR_ID, DS_PRODUCT_ID, Some("ps"), -1, "ps"),
        hid(MS_VENDOR_ID, XBOX_WIRELESS_CONTROLLER_BT_PRODUCT_ID, Some("xb"), -1, "xb"),
        procon(-1, "bt"),
    ];
    assert_eq!(plan_discovery(&records, &Vec::new()).hid, vec![2, 1, 0]);
}

#[test]
fn kernel_tokens_dedup_by_first_occurrence() {
    let os = vec![
        input(MS_VENDOR_ID, 0x0b12, "gip1.0"),
        input(MS_VENDOR_ID, 0x0b12, "input7"),
        input(MS_VENDOR_ID, 0x0b12, "gip1.0"),
        input(MS_VENDOR_ID, 0x0b12, "input7"),
    ];
    let plan = plan_discovery(&Vec::new(), &os);
    assert_eq!(plan.os, vec![0, 1]);
    let accepted = filter_records(&os, Selector::AcceptedToken);
    assert_eq!(dedup_by_token(&os, &accepted), vec![0, 1]);
}

#[test]
fn kernel_tokens_are_filtered() {
    let os = vec![
        input(MS_VENDOR_ID, 0x0b12, "gip0.1"),
        input(MS_VENDOR_ID, 0x0b12, "event3"),
        input(0x1234, 0x0001, "input2"),
        input(MS_VENDOR_ID, 0x02fe, "gip0.2"),
    ];
    assert_eq!(plan_discovery(&Vec::new(), &os).os, vec![3]);
}

#[test]
fn a_token_seen_on_another_vendor_is_not_repeated() {
    let os = vec![input(0x1234, 0x0001, "input2"), input(MS_VENDOR_ID, 0x0b12, "input2")];
    assert!(plan_discovery(&Vec::new(), &os).os.is_empty());
}

#[test]
fn assembled_controller_takes_the_reading() {
    let record = hid(DS_VENDOR_ID, DS_EDGE_PRODUCT_ID, None, -1, "/dev/hidraw3");
    let c = assemble(&record, heuristic_default(true));
    assert_eq!(c.family, Family::DualSenseEdge);
    assert_eq!(c.name, "DualSense Edge");
    assert_eq!(c.capacity, 0);
    assert_eq!(c.status, Status::Unknown);
    assert_eq!(c.gip, "/dev/hidraw3");
}

#[test]
fn reported_battery_over_full_is_capped() {
    let record = hid(VENDOR_ID_NINTENDO, PRODUCT_ID_NINTENDO_PROCON, Some("s"), -1, "hid");
    let c = parse_reported_controller(&record, 250, true);
    assert_eq!(c.capacity, 100);
    assert_eq!(c.status, Status::Charging);
    assert_eq!(c.name, "Pro Controller");
    assert_eq!(c.family, Family::Nintendo);
}

#[test]
fn chain_takes_first_success() {
    let r = resolve_chain(&vec![None, Some(42), Some(7)], true);
    assert_eq!(r.capacity, 42);
    assert_eq!(r.status, Status::Unknown);
}
