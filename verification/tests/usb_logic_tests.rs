use synaptix::protocol::{BatteryState, ConnectionType};
use synaptix::razer_protocol::battery_raw_to_percent;
use synaptix::usb_logic::{
    charging_from_connection, charging_query_step, level_query_step, merge_battery_level,
    needs_driver_mode, parse_sysfs_u8, retry_delay_ms, sysfs_battery_state, sysfs_hid_id,
    sysfs_query_order, uevent_matches, wired_level_fallback, QueryStep,
};

#[test]
fn test_sysfs_hid_id() {
    assert_eq!(sysfs_hid_id(0x0258), "HID_ID=0003:00001532:00000258");
    assert_eq!(sysfs_hid_id(0x00AF), "HID_ID=0003:00001532:000000AF");
}

#[test]
fn test_sysfs_battery_state_selection() {
    assert_eq!(sysfs_battery_state(&[]), None);
    // level=255 charging=1 -> 100% charging -> Full
    assert_eq!(sysfs_battery_state(&[(255, 1)]), Some(BatteryState::Full));
    // First entry reads 0 %, a later one has real data: the later one wins.
    assert_eq!(sysfs_battery_state(&[(0, 0), (128, 0)]), Some(BatteryState::Discharging(50)));
    // A status other than 1 is not charging.
    assert_eq!(sysfs_battery_state(&[(191, 2)]), Some(BatteryState::Discharging(74)));
    // Once a non-zero level is chosen it stays.
    assert_eq!(sysfs_battery_state(&[(128, 1), (255, 0)]), Some(BatteryState::Charging(50)));
}

#[test]
fn test_sysfs_query_order() {
    assert_eq!(sysfs_query_order(0x0271, ConnectionType::Dongle, Some(0x0258), true), vec![0x0258, 0x0271]);
    assert_eq!(sysfs_query_order(0x0271, ConnectionType::Dongle, Some(0x0258), false), vec![0x0271]);
    assert_eq!(sysfs_query_order(0x0258, ConnectionType::Wired, Some(0x0258), true), vec![0x0258]);
    assert_eq!(sysfs_query_order(0x00B0, ConnectionType::Bluetooth, None, true), vec![0x00B0]);
}

#[test]
fn test_retry_delay_and_driver_mode() {
    assert_eq!(retry_delay_ms(ConnectionType::Wired), 20);
    assert_eq!(retry_delay_ms(ConnectionType::Dongle), 1500);
    assert_eq!(retry_delay_ms(ConnectionType::Bluetooth), 1500);
    assert!(!needs_driver_mode(ConnectionType::Wired));
    assert!(needs_driver_mode(ConnectionType::Dongle));
    assert!(needs_driver_mode(ConnectionType::Bluetooth));
}

#[test]
fn test_query_steps() {
    let mut resp = [0u8; 90];
    resp[0] = 0x02;
    resp[6] = 0x07;
    resp[7] = 0x80;
    resp[9] = 191;
    assert_eq!(level_query_step(&resp), QueryStep::Done(74));
    resp[0] = 0x01;
    assert_eq!(level_query_step(&resp), QueryStep::Retry);
    resp[0] = 0x05;
    assert_eq!(level_query_step(&resp), QueryStep::Fail);
    resp[0] = 0x02;
    // Echo of the wrong command ID is a failure.
    assert_eq!(charging_query_step(&resp), QueryStep::Fail);
    resp[7] = 0x84;
    resp[9] = 1;
    assert_eq!(charging_query_step(&resp), QueryStep::Done(true));
    resp[9] = 0;
    assert_eq!(charging_query_step(&resp), QueryStep::Done(false));
}

#[test]
fn test_wired_level_fallback_and_merge() {
    let d = ConnectionType::Dongle;
    assert_eq!(wired_level_fallback(d, Some(0x0258), true, Some(0)), Some(0x0258));
    assert_eq!(wired_level_fallback(d, Some(0x0258), true, None), Some(0x0258));
    assert_eq!(wired_level_fallback(d, Some(0x0258), true, Some(40)), None);
    assert_eq!(wired_level_fallback(d, Some(0x0258), false, Some(0)), None);
    assert_eq!(wired_level_fallback(ConnectionType::Wired, Some(0x0258), true, Some(0)), None);
    assert_eq!(merge_battery_level(Some(0), Some(Some(60))), Some(60));
    assert_eq!(merge_battery_level(Some(0), Some(Some(0))), Some(0));
    assert_eq!(merge_battery_level(Some(0), None), Some(0));
    assert_eq!(merge_battery_level(Some(30), Some(Some(60))), Some(30));
    assert_eq!(merge_battery_level(None, Some(Some(0))), Some(0));
    assert_eq!(merge_battery_level(None, Some(None)), None);
    assert_eq!(merge_battery_level(None, None), None);
}

#[test]
fn test_charging_from_connection() {
    assert_eq!(charging_from_connection(ConnectionType::Wired, false), Some(true));
    assert_eq!(charging_from_connection(ConnectionType::Dongle, true), Some(true));
    assert_eq!(charging_from_connection(ConnectionType::Dongle, false), None);
    assert_eq!(charging_from_connection(ConnectionType::Bluetooth, true), None);
}

#[test]
fn test_query_battery_sysfs_reads_charge_level_and_status() {
    // The attribute files of a wired keyboard bound to the kernel module.
    let uevent = "DRIVER=razerkbd\nHID_ID=0003:00001532:00000258\n";
    assert!(uevent_matches(uevent, 0x0258));
    let level = parse_sysfs_u8("255\n").unwrap();
    let status = parse_sysfs_u8("1\n").unwrap();
    assert_eq!(level, 255, "charge_level should be 255");
    assert_eq!(status, 1, "charge_status should be 1 (charging)");
    assert_eq!(battery_raw_to_percent(level), 100);
    assert_eq!(sysfs_battery_state(&[(level, status)]), Some(BatteryState::Full));
}

#[test]
fn test_query_battery_sysfs_returns_none_when_no_sysfs() {
    // No matching sysfs entry gives no readings, hence no state.
    assert!(!uevent_matches("HID_ID=0003:00001532:00000258\n", 0xDEAD));
    assert_eq!(sysfs_battery_state(&[]), None);
}

#[test]
fn uevent_matching_needs_the_exact_hid_id() {
    assert!(uevent_matches("HID_ID=0003:00001532:000000AF", 0x00AF));
    assert!(!uevent_matches("HID_ID=0003:00001532:000000af", 0x00AF));
    assert!(!uevent_matches("HID_ID=0003:00001532:0000AF", 0x00AF));
    assert!(!uevent_matches("", 0x00AF));
}

#[test]
fn sysfs_numbers_are_trimmed_and_bounded() {
    assert_eq!(parse_sysfs_u8("0"), Some(0));
    assert_eq!(parse_sysfs_u8("  42 \n"), Some(42));
    assert_eq!(parse_sysfs_u8("+7\n"), Some(7));
    assert_eq!(parse_sysfs_u8("007"), Some(7));
    assert_eq!(parse_sysfs_u8("256\n"), None);
    assert_eq!(parse_sysfs_u8("-1"), None);
    assert_eq!(parse_sysfs_u8("4 2"), None);
    assert_eq!(parse_sysfs_u8(""), None);
    assert_eq!(parse_sysfs_u8(" \n"), None);
    assert_eq!(parse_sysfs_u8("+"), None);
}
