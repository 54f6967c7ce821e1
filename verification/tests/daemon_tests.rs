use synaptix::daemon::{
    battery_poll_decision, battery_to_pct, blackwidow_v3_mini_candidates, cobra_pro_candidates,
    first_connected_pid, headset_device_id, is_suspicious_zero, keyboard_battery_source,
    resolve_battery_state, resolve_blackwidow_v3_mini, resolve_cobra_pro, state_pct,
    watch_change, wired_fallback, wired_reading, PollDecision, WatchChange,
};
use synaptix::protocol::{BatteryState, ConnectionType, RazerProductId};

#[test]
fn test_state_pct_and_battery_to_pct() {
    assert_eq!(state_pct(&BatteryState::Charging(40)), 40);
    assert_eq!(state_pct(&BatteryState::Discharging(7)), 7);
    assert_eq!(state_pct(&BatteryState::Full), 100);
    assert_eq!(state_pct(&BatteryState::Unknown), 0);
    assert_eq!(battery_to_pct(&BatteryState::Charging(40)), (40, true));
    assert_eq!(battery_to_pct(&BatteryState::Discharging(7)), (7, false));
    assert_eq!(battery_to_pct(&BatteryState::Full), (100, true));
    assert_eq!(battery_to_pct(&BatteryState::Unknown), (0, false));
}

#[test]
fn test_resolve_battery_state() {
    assert_eq!(resolve_battery_state(100, true), BatteryState::Full);
    assert_eq!(resolve_battery_state(99, true), BatteryState::Charging(99));
    assert_eq!(resolve_battery_state(100, false), BatteryState::Discharging(100));
    assert_eq!(resolve_battery_state(0, false), BatteryState::Discharging(0));
}

#[test]
fn test_first_connected_pid_prefers_candidate_order() {
    let attached = [(0x1532u16, 0x00AFu16), (0x1532, 0x00B0), (0x046D, 0x0271)];
    let cobra = cobra_pro_candidates();
    assert_eq!(cobra, vec![0x00B0, 0x00AF]);
    assert_eq!(first_connected_pid(&cobra, &attached), Some(0x00B0));
    let only_cable = [(0x1532u16, 0x00AFu16)];
    assert_eq!(first_connected_pid(&cobra, &only_cable), Some(0x00AF));
    // A Logitech device with a matching product ID is not a Razer device.
    let kb = blackwidow_v3_mini_candidates();
    assert_eq!(first_connected_pid(&kb, &attached), None);
    assert_eq!(first_connected_pid(&[], &attached), None);
}

#[test]
fn test_resolve_cobra_pro() {
    let d = resolve_cobra_pro(Some(0x00AF));
    assert_eq!(d.pid, 0x00AF);
    assert_eq!(d.product_id, RazerProductId::CobraProWired);
    assert_eq!(d.connection_type, ConnectionType::Wired);
    assert_eq!(d.name, "Razer Cobra Pro (Wired)");
    let d = resolve_cobra_pro(Some(0x00B0));
    assert_eq!(d.connection_type, ConnectionType::Dongle);
    assert_eq!(d.product_id, RazerProductId::CobraProWireless);
    assert_eq!(d.name, "Razer Cobra Pro (Wireless)");
    let d = resolve_cobra_pro(None);
    assert_eq!(d.pid, 0x00B0);
    assert_eq!(d.connection_type, ConnectionType::Bluetooth);
}

#[test]
fn test_resolve_blackwidow_v3_mini() {
    assert!(resolve_blackwidow_v3_mini(None).is_none());
    assert!(resolve_blackwidow_v3_mini(Some(0x00B0)).is_none());
    let d = resolve_blackwidow_v3_mini(Some(0x0271)).unwrap();
    assert_eq!(d.connection_type, ConnectionType::Dongle);
    assert_eq!(d.product_id, RazerProductId::BlackWidowV3MiniHyperSpeedWireless);
    let d = resolve_blackwidow_v3_mini(Some(0x0258)).unwrap();
    assert_eq!(d.connection_type, ConnectionType::Wired);
    assert_eq!(d.product_id, RazerProductId::BlackWidowV3MiniHyperSpeedWired);
}

#[test]
fn test_headset_device_id() {
    assert_eq!(headset_device_id(0x0568), "kraken-v4-pro-0568");
    assert_eq!(headset_device_id(0x056c), "kraken-v4-pro-056c");
    assert_eq!(headset_device_id(0xABCD), "kraken-v4-pro-abcd");
}

#[test]
fn test_keyboard_battery_source() {
    assert_eq!(keyboard_battery_source(ConnectionType::Dongle), (0x9F, Some(0x0258)));
    assert_eq!(keyboard_battery_source(ConnectionType::Wired), (0x1F, None));
}

#[test]
fn test_wired_reading_and_fallback() {
    assert_eq!(wired_reading(Some(BatteryState::Discharging(55))), Some(BatteryState::Charging(55)));
    assert_eq!(wired_reading(Some(BatteryState::Charging(0))), None);
    assert_eq!(wired_reading(Some(BatteryState::Full)), Some(BatteryState::Full));
    assert_eq!(wired_reading(Some(BatteryState::Unknown)), None);
    assert_eq!(wired_reading(None), None);
    assert_eq!(wired_fallback(&BatteryState::Discharging(70)), Some(BatteryState::Charging(70)));
    assert_eq!(wired_fallback(&BatteryState::Full), Some(BatteryState::Full));
    assert_eq!(wired_fallback(&BatteryState::Unknown), None);
}

#[test]
fn test_battery_poll_decision() {
    let last = Some(BatteryState::Discharging(75));
    assert!(is_suspicious_zero(&BatteryState::Discharging(0), 75));
    assert_eq!(battery_poll_decision(&last, &BatteryState::Discharging(0)), PollDecision::Discard);
    assert_eq!(battery_poll_decision(&last, &BatteryState::Discharging(75)), PollDecision::TrayOnly);
    assert_eq!(battery_poll_decision(&last, &BatteryState::Discharging(74)), PollDecision::TrayAndSignal);
    // A low last level does not make a zero reading suspicious.
    assert_eq!(
        battery_poll_decision(&Some(BatteryState::Discharging(5)), &BatteryState::Discharging(0)),
        PollDecision::TrayAndSignal
    );
    assert_eq!(battery_poll_decision(&None, &BatteryState::Unknown), PollDecision::TrayAndSignal);
}

#[test]
fn test_watch_change() {
    let d = ConnectionType::Dongle;
    assert_eq!(watch_change(0xB0, d, false, 0xB0, d, false), WatchChange::Unchanged);
    assert_eq!(watch_change(0xB0, d, false, 0xB0, d, true), WatchChange::CableOnly);
    assert_eq!(
        watch_change(0xB0, d, false, 0xAF, ConnectionType::Wired, false),
        WatchChange::Connection
    );
}
