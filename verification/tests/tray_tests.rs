use synaptix::tray::{
    battery_icon_rgba, build_combined_tooltip, build_device_label, low_battery_alerts,
    low_battery_notice, lowest_battery_pct, TrayState, TrayUpdate,
};

fn make_update(device_id: &str, device_name: &str, pct: u8, charging: bool) -> TrayUpdate {
    TrayUpdate {
        device_id: device_id.to_string(),
        device_name: device_name.to_string(),
        percentage: pct,
        is_charging: charging,
    }
}

#[test]
fn test_build_device_label_discharging() {
    let u = make_update("cobra-pro", "Razer Cobra Pro", 75, false);
    assert_eq!(build_device_label(&u), "Razer Cobra Pro: 75%");
}

#[test]
fn test_build_device_label_charging() {
    let u = make_update("cobra-pro", "Razer Cobra Pro", 80, true);
    assert_eq!(build_device_label(&u), "Razer Cobra Pro: 80% ⚡");
}

#[test]
fn test_lowest_battery_pct_single() {
    let map = vec![make_update("cobra-pro", "Cobra Pro", 42, false)];
    assert_eq!(lowest_battery_pct(&map), 42);
}

#[test]
fn test_lowest_battery_pct_multi() {
    let map = vec![
        make_update("cobra-pro", "Cobra Pro", 60, false),
        make_update("kraken-v4-pro", "Kraken V4 Pro", 15, false),
    ];
    assert_eq!(lowest_battery_pct(&map), 15);
}

#[test]
fn test_lowest_battery_pct_empty() {
    let map: Vec<TrayUpdate> = Vec::new();
    assert_eq!(lowest_battery_pct(&map), 0);
}

#[test]
fn test_build_combined_tooltip_single() {
    let map = vec![make_update("cobra-pro", "Cobra Pro", 75, false)];
    assert_eq!(build_combined_tooltip(&map), "Cobra Pro: 75%");
}

#[test]
fn test_build_combined_tooltip_multi() {
    // Sorted by device_id: cobra-pro < kraken-v4-pro, whatever the input order.
    let map = vec![
        make_update("kraken-v4-pro", "Kraken V4 Pro", 96, false),
        make_update("cobra-pro", "Cobra Pro", 60, false),
    ];
    assert_eq!(
        build_combined_tooltip(&map),
        "Cobra Pro: 60% | Kraken V4 Pro: 96%"
    );
}

#[test]
fn test_build_combined_tooltip_empty() {
    let map: Vec<TrayUpdate> = Vec::new();
    assert_eq!(build_combined_tooltip(&map), "Synaptix – Scanning…");
}

#[test]
fn test_tooltip_orders_three_devices_by_id() {
    let map = vec![
        make_update("z-kbd", "Keyboard", 5, true),
        make_update("a-mouse", "Mouse", 100, false),
        make_update("m-head", "Headset", 7, false),
    ];
    assert_eq!(
        build_combined_tooltip(&map),
        "Mouse: 100% | Headset: 7% | Keyboard: 5% ⚡"
    );
}

#[test]
fn test_label_single_digit_and_zero() {
    assert_eq!(build_device_label(&make_update("x", "X", 0, false)), "X: 0%");
    assert_eq!(build_device_label(&make_update("x", "X", 9, true)), "X: 9% ⚡");
    assert_eq!(build_device_label(&make_update("x", "X", 255, false)), "X: 255%");
}

#[test]
fn test_battery_icon_pixels() {
    let icon = battery_icon_rgba(50);
    assert_eq!(icon.len(), 32 * 32 * 4);
    let px = |x: usize, y: usize| {
        let i = (y * 32 + x) * 4;
        (icon[i], icon[i + 1], icon[i + 2], icon[i + 3])
    };
    // Outline is white, corner is transparent.
    assert_eq!(px(2, 10), (0xFF, 0xFF, 0xFF, 255));
    assert_eq!(px(29, 15), (0xFF, 0xFF, 0xFF, 255));
    assert_eq!(px(0, 0), (0, 0, 0, 0));
    // 50 % fills 12 px from x = 3 in green.
    assert_eq!(px(3, 15), (0x44, 0xD6, 0x2C, 255));
    assert_eq!(px(14, 15), (0x44, 0xD6, 0x2C, 255));
    assert_eq!(px(15, 15), (0, 0, 0, 0));
}

#[test]
fn test_battery_icon_colours_and_minimum_fill() {
    let low = battery_icon_rgba(1);
    // 24 * 1 / 100 = 0, but any non-zero level shows one pixel, red.
    let i = (15 * 32 + 3) * 4;
    assert_eq!(&low[i..i + 4], &[0xFF, 0x3C, 0x3C, 255]);
    let j = (15 * 32 + 4) * 4;
    assert_eq!(&low[j..j + 4], &[0, 0, 0, 0]);
    let amber = battery_icon_rgba(30);
    assert_eq!(&amber[i..i + 4], &[0xFF, 0xC8, 0x00, 255]);
    let empty = battery_icon_rgba(0);
    assert_eq!(&empty[i..i + 4], &[0, 0, 0, 0]);
}

#[test]
fn test_low_battery_alerts_crossing() {
    let (alerts, fired) = low_battery_alerts(14, Some(30), &vec![]);
    assert_eq!(alerts, vec![20, 15]);
    assert_eq!(fired, vec![20, 15]);
    // Going further down only fires the newly crossed threshold.
    let (alerts, fired) = low_battery_alerts(9, Some(14), &fired);
    assert_eq!(alerts, vec![10]);
    assert_eq!(fired, vec![20, 15, 10]);
    // Staying at the same level fires nothing.
    let (alerts, _) = low_battery_alerts(9, Some(9), &fired);
    assert!(alerts.is_empty());
    // Rising above a threshold re-arms it.
    let (_, fired) = low_battery_alerts(17, Some(9), &fired);
    assert_eq!(fired, vec![20]);
}

#[test]
fn test_low_battery_notice_text() {
    let n = low_battery_notice("Razer Cobra Pro", 8);
    assert_eq!(n.summary, "Low Battery — Razer Cobra Pro");
    assert_eq!(n.body, "Battery level is at 8%.");
    assert!(n.critical);
    assert_eq!(n.icon, "battery-empty");
    let n = low_battery_notice("X", 15);
    assert!(!n.critical);
    assert_eq!(n.icon, "battery-caution");
    assert_eq!(n.body, "Battery level is at 15%.");
}

#[test]
fn test_tray_state_first_update_and_once_per_cycle() {
    let mut st = TrayState::new();
    let step = st.apply_update(make_update("cobra-pro", "Cobra", 19, false));
    assert!(step.is_new_device);
    assert_eq!(step.label, "Cobra: 19%");
    assert_eq!(step.alerts, vec![20]);
    let step = st.apply_update(make_update("cobra-pro", "Cobra", 18, false));
    assert!(!step.is_new_device);
    assert!(step.alerts.is_empty(), "threshold 20 already notified this cycle");
    // Charging clears the notified set; nothing fires while charging.
    let step = st.apply_update(make_update("cobra-pro", "Cobra", 18, true));
    assert!(step.alerts.is_empty());
    assert_eq!(step.label, "Cobra: 18% ⚡");
    // Previous level 18 is not above 20, so 20 does not fire again.
    let step = st.apply_update(make_update("cobra-pro", "Cobra", 14, false));
    assert_eq!(step.alerts, vec![15]);
    let updates = st.updates();
    assert_eq!(updates.len(), 1);
    assert_eq!(updates[0].percentage, 14);
}

#[test]
fn test_tray_state_tracks_devices_separately() {
    let mut st = TrayState::new();
    st.apply_update(make_update("b", "B", 50, false));
    let step = st.apply_update(make_update("a", "A", 4, false));
    assert!(step.is_new_device);
    assert_eq!(step.alerts, vec![20, 15, 10, 5]);
    let updates = st.updates();
    assert_eq!(lowest_battery_pct(&updates), 4);
    assert_eq!(build_combined_tooltip(&updates), "A: 4% | B: 50%");
}
