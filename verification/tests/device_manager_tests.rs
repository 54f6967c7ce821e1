use synaptix::device_manager::{lighting_params, DeviceManager, HapticPlan};
use synaptix::protocol::{
    BatteryState, ConnectionType, DeviceSettings, LightingEffect, RazerDevice, RazerProductId,
};
use synaptix::razer_protocol::{
    build_breathing_payload, build_haptic_report, build_kraken_v4_static_payload,
    build_set_dpi_payload, build_set_haptic_payload, build_set_sidetone_payload,
    build_spectrum_payload, build_static_color_payload, HapticSequencer, HAPTIC_COUNTER_START,
    LED_BACKLIGHT, LED_ZERO, TRANSACTION_ID_COBRA, TRANSACTION_ID_DA,
    TRANSACTION_ID_KEYBOARD_WIRELESS,
};

fn mock_device() -> RazerDevice {
    RazerDevice {
        name: "Razer DeathAdder V2 Pro".to_string(),
        product_id: RazerProductId::DeathAdderV2Pro,
        battery_state: BatteryState::Discharging(75),
        capabilities: vec![],
        connection_type: ConnectionType::Wired,
    }
}

fn device(name: &str, product_id: RazerProductId) -> RazerDevice {
    RazerDevice {
        name: name.to_string(),
        product_id,
        battery_state: BatteryState::Unknown,
        capabilities: vec![],
        connection_type: ConnectionType::Dongle,
    }
}

#[test]
fn test_add_and_retrieve_device() {
    let mut manager = DeviceManager::new();
    let device = mock_device();

    manager.add_device("da-v2-pro".to_string(), device.clone());

    let retrieved = manager
        .get_device("da-v2-pro")
        .expect("device should exist");
    assert_eq!(retrieved.name, device.name);
    assert_eq!(retrieved.product_id, device.product_id);
    assert_eq!(retrieved.battery_state, device.battery_state);
}

#[test]
fn test_update_battery_state() {
    let mut manager = DeviceManager::new();
    manager.add_device("da-v2-pro".to_string(), mock_device());

    manager.update_battery("da-v2-pro", BatteryState::Charging(80));

    let device = manager
        .get_device("da-v2-pro")
        .expect("device should exist");
    assert_eq!(device.battery_state, BatteryState::Charging(80));
}

/// Wired keyboard must use TRANSACTION_ID_COBRA (0x1F) and LED_BACKLIGHT (0x05).
#[test]
fn test_lighting_params_blackwidow_wired_uses_cobra_txn_backlight_led() {
    let (txn_id, led_id) = lighting_params(&RazerProductId::BlackWidowV3MiniHyperSpeedWired);
    assert_eq!(
        txn_id, TRANSACTION_ID_COBRA,
        "Wired keyboard must use TRANSACTION_ID_COBRA (0x1F)"
    );
    assert_eq!(
        led_id, LED_BACKLIGHT,
        "Wired keyboard must target LED_BACKLIGHT (0x05)"
    );
}

/// Wireless keyboard must use TRANSACTION_ID_KEYBOARD_WIRELESS (0x9F) and LED_BACKLIGHT (0x05).
#[test]
fn test_lighting_params_blackwidow_wireless_uses_wireless_txn_backlight_led() {
    let (txn_id, led_id) = lighting_params(&RazerProductId::BlackWidowV3MiniHyperSpeedWireless);
    assert_eq!(
        txn_id, TRANSACTION_ID_KEYBOARD_WIRELESS,
        "Wireless keyboard must use TRANSACTION_ID_KEYBOARD_WIRELESS (0x9F)"
    );
    assert_eq!(
        led_id, LED_BACKLIGHT,
        "Wireless keyboard must target LED_BACKLIGHT (0x05)"
    );
}

#[test]
fn test_lighting_params_other_products() {
    assert_eq!(lighting_params(&RazerProductId::CobraProWired), (0x1F, LED_ZERO));
    assert_eq!(lighting_params(&RazerProductId::CobraProWireless), (0x1F, LED_ZERO));
    assert_eq!(lighting_params(&RazerProductId::DeathAdderV2Pro), (0x3F, 0x05));
    assert_eq!(lighting_params(&RazerProductId::Unknown(0x1234)), (TRANSACTION_ID_DA, 0x05));
    assert_eq!(lighting_params(&RazerProductId::KrakenV4Pro), (TRANSACTION_ID_DA, LED_BACKLIGHT));
}

#[test]
fn test_get_after_add_replaces_and_keeps_others() {
    let mut m = DeviceManager::new();
    m.add_device("a".to_string(), device("A", RazerProductId::CobraProWired));
    m.add_device("b".to_string(), device("B", RazerProductId::KrakenV4Pro));
    m.add_device("a".to_string(), device("A2", RazerProductId::CobraProWireless));
    assert_eq!(m.get_device("a").unwrap().name, "A2");
    assert_eq!(m.get_device("b").unwrap().name, "B");
    assert!(m.get_device("c").is_none());
    let all = m.get_all_devices();
    assert_eq!(all.len(), 2);
    assert_eq!(all[0].name, "A2");
    assert_eq!(all[1].name, "B");
}

#[test]
fn test_update_battery_unknown_device_is_noop() {
    let mut m = DeviceManager::new();
    m.add_device("a".to_string(), device("A", RazerProductId::CobraProWired));
    m.update_battery("zzz", BatteryState::Full);
    assert_eq!(m.get_device("a").unwrap().battery_state, BatteryState::Unknown);
    assert!(m.get_device("zzz").is_none());
}

#[test]
fn test_update_connection_changes_only_connection_fields() {
    let mut m = DeviceManager::new();
    m.add_device("cobra-pro".to_string(), device("Razer Cobra Pro", RazerProductId::CobraProWireless));
    m.update_battery("cobra-pro", BatteryState::Discharging(60));
    m.update_connection(
        "cobra-pro",
        "Razer Cobra Pro (Wired)".to_string(),
        RazerProductId::CobraProWired,
        ConnectionType::Wired,
    );
    let d = m.get_device("cobra-pro").unwrap();
    assert_eq!(d.name, "Razer Cobra Pro (Wired)");
    assert_eq!(d.product_id, RazerProductId::CobraProWired);
    assert_eq!(d.connection_type, ConnectionType::Wired);
    assert_eq!(d.battery_state, BatteryState::Discharging(60));
}

#[test]
fn test_plan_lighting_static_mouse_and_persists() {
    let mut m = DeviceManager::new();
    m.add_device("cobra-pro".to_string(), device("Cobra", RazerProductId::CobraProWireless));
    let plan = m
        .plan_lighting("cobra-pro", LightingEffect::Static([0x44, 0xD6, 0x2C]))
        .expect("known device");
    assert_eq!(plan.product_id, 0x00B0);
    assert_eq!(
        plan.payload,
        Some(build_static_color_payload(0x1F, LED_ZERO, 0x44, 0xD6, 0x2C))
    );
    let s = m.device_settings("cobra-pro").unwrap();
    assert_eq!(s.lighting, Some(LightingEffect::Static([0x44, 0xD6, 0x2C])));
    assert_eq!(s.dpi, None);
}

#[test]
fn test_plan_lighting_breathing_and_spectrum() {
    let mut m = DeviceManager::new();
    m.add_device("da".to_string(), mock_device());
    let p = m.plan_lighting("da", LightingEffect::Breathing([1, 2, 3])).unwrap();
    assert_eq!(p.payload, Some(build_breathing_payload(0x3F, 0x05, 1, 2, 3)));
    let p = m.plan_lighting("da", LightingEffect::Spectrum).unwrap();
    assert_eq!(p.payload, Some(build_spectrum_payload(0x3F, 0x05)));
}

#[test]
fn test_plan_lighting_kraken_static_only() {
    let mut m = DeviceManager::new();
    m.add_device("kraken".to_string(), device("Kraken", RazerProductId::KrakenV4Pro));
    let p = m.plan_lighting("kraken", LightingEffect::Static([0xFF, 0, 0])).unwrap();
    assert_eq!(p.product_id, 0x0568);
    assert_eq!(p.payload, Some(build_kraken_v4_static_payload(0xFF, 0, 0)));
    let p = m.plan_lighting("kraken", LightingEffect::Breathing([0xFF, 0, 0])).unwrap();
    assert_eq!(p.payload, None);
    let p = m.plan_lighting("kraken", LightingEffect::Spectrum).unwrap();
    assert_eq!(p.payload, None);
    // The preference is still recorded, as the request is accepted.
    assert_eq!(
        m.device_settings("kraken").unwrap().lighting,
        Some(LightingEffect::Spectrum)
    );
}

#[test]
fn test_plan_lighting_unknown_device_refused() {
    let mut m = DeviceManager::new();
    assert!(m.plan_lighting("nope", LightingEffect::Spectrum).is_none());
    assert!(m.device_settings("nope").is_none());
}

#[test]
fn test_plan_dpi_requires_dpi_capability() {
    let mut m = DeviceManager::new();
    m.add_device("cobra-pro".to_string(), device("Cobra", RazerProductId::CobraProWireless));
    m.add_device("da".to_string(), mock_device());
    let (pid, payload) = m.plan_dpi("cobra-pro", 800, 1600).unwrap();
    assert_eq!(pid, 0x00B0);
    assert_eq!(payload, build_set_dpi_payload(0x1F, 800, 1600));
    // DeathAdder V2 Pro (0x007C) does not advertise DpiControl.
    assert!(m.plan_dpi("da", 800, 800).is_none());
    assert!(m.plan_dpi("missing", 800, 800).is_none());
}

#[test]
fn test_record_dpi_keeps_lighting() {
    let mut m = DeviceManager::with_settings(vec![(
        "cobra-pro".to_string(),
        DeviceSettings { lighting: Some(LightingEffect::Spectrum), dpi: None },
    )]);
    m.record_dpi("cobra-pro", 1800);
    let s = m.device_settings("cobra-pro").unwrap();
    assert_eq!(s.dpi, Some(1800));
    assert_eq!(s.lighting, Some(LightingEffect::Spectrum));
    m.record_dpi("other", 400);
    let o = m.device_settings("other").unwrap();
    assert_eq!(o.dpi, Some(400));
    assert_eq!(o.lighting, None);
}

#[test]
fn test_plan_sidetone_clamps_and_requires_capability() {
    let mut m = DeviceManager::new();
    m.add_device("kraken".to_string(), device("Kraken", RazerProductId::KrakenV4Pro));
    m.add_device("cobra".to_string(), device("Cobra", RazerProductId::CobraProWired));
    let (pid, payload) = m.plan_sidetone("kraken", 250).unwrap();
    assert_eq!(pid, 0x0568);
    assert_eq!(payload, build_set_sidetone_payload(100));
    let (_, payload) = m.plan_sidetone("kraken", 42).unwrap();
    assert_eq!(payload, build_set_sidetone_payload(42));
    assert!(m.plan_sidetone("cobra", 10).is_none());
}

#[test]
fn test_plan_haptic_hub_uses_sequence_counter() {
    let mut m = DeviceManager::new();
    m.add_device("kraken".to_string(), device("Kraken", RazerProductId::KrakenV4Pro));
    let mut seq = HapticSequencer::new();
    match m.plan_haptic_intensity("kraken", 66, &mut seq).unwrap() {
        HapticPlan::HubReport { product_id, report } => {
            assert_eq!(product_id, 0x0568);
            assert_eq!(report, build_haptic_report(66, HAPTIC_COUNTER_START));
            assert_eq!(report[42], 9);
        }
        HapticPlan::LegacyReport { .. } => panic!("hub must get the 64-byte report"),
    }
    assert_eq!(seq.next, 10);
    match m.plan_haptic_intensity("kraken", 200, &mut seq).unwrap() {
        HapticPlan::HubReport { report, .. } => {
            assert_eq!(report, build_haptic_report(100, 10));
        }
        HapticPlan::LegacyReport { .. } => panic!("hub must get the 64-byte report"),
    }
}

#[test]
fn test_plan_haptic_legacy_headset_and_refusals() {
    let mut m = DeviceManager::new();
    m.add_device("main".to_string(), device("Main", RazerProductId::Unknown(0x056c)));
    m.add_device("cobra".to_string(), device("Cobra", RazerProductId::CobraProWired));
    let mut seq = HapticSequencer::new();
    match m.plan_haptic_intensity("main", 75, &mut seq).unwrap() {
        HapticPlan::LegacyReport { product_id, payload } => {
            assert_eq!(product_id, 0x056c);
            assert_eq!(payload, build_set_haptic_payload(75));
        }
        HapticPlan::HubReport { .. } => panic!("only the hub takes the 64-byte report"),
    }
    assert_eq!(seq.next, HAPTIC_COUNTER_START);
    assert!(m.plan_haptic_intensity("cobra", 75, &mut seq).is_none());
    assert!(m.plan_haptic_intensity("none", 75, &mut seq).is_none());
}

#[test]
fn test_apply_saved_settings_commands() {
    let mut m = DeviceManager::with_settings(vec![
        (
            "cobra-pro".to_string(),
            DeviceSettings { lighting: Some(LightingEffect::Static([1, 2, 3])), dpi: Some(1800) },
        ),
        (
            "da".to_string(),
            DeviceSettings { lighting: None, dpi: Some(800) },
        ),
        (
            "absent".to_string(),
            DeviceSettings { lighting: Some(LightingEffect::Spectrum), dpi: None },
        ),
    ]);
    m.add_device("cobra-pro".to_string(), device("Cobra", RazerProductId::CobraProWireless));
    m.add_device("da".to_string(), mock_device());
    m.add_device("kb".to_string(), device("KB", RazerProductId::BlackWidowV3MiniHyperSpeedWired));
    let cmds = m.apply_saved_settings();
    assert_eq!(cmds.len(), 2);
    assert_eq!(cmds[0].device_id, "cobra-pro");
    assert_eq!(cmds[0].product_id, 0x00B0);
    assert_eq!(cmds[0].payload, build_static_color_payload(0x1F, 0x00, 1, 2, 3));
    assert_eq!(cmds[1].device_id, "cobra-pro");
    assert_eq!(cmds[1].payload, build_set_dpi_payload(0x1F, 1800, 1800));
}

#[test]
fn test_update_lighting_only_for_known_devices() {
    let mut m = DeviceManager::new();
    m.update_lighting("ghost", LightingEffect::Spectrum);
    m.add_device("a".to_string(), mock_device());
    m.update_lighting("a", LightingEffect::Spectrum);
    assert_eq!(m.get_all_devices().len(), 1);
}
