use synaptix::razer_protocol::{
    build_battery_query_payload, build_breathing_payload, build_charging_query_payload,
    build_haptic_report, build_headset_status_query, build_kraken_v4_static_payload,
    build_set_dpi_payload, build_set_haptic_payload, build_set_sidetone_payload,
    build_spectrum_payload, build_static_color_payload, parse_battery_response,
    parse_headset_push_packet, CMD_CLASS, CMD_CLASS_BATTERY, CMD_CLASS_SENSOR, CMD_ID,
    CMD_ID_BATTERY_LEVEL, CMD_ID_CHARGING_STATUS, CMD_ID_SET_DPI, CMD_ID_SET_HAPTIC_INTENSITY,
    CMD_ID_SET_SIDETONE, EFFECT_BREATHING_SINGLE, EFFECT_SPECTRUM, HAPTIC_COUNTER_START,
    HAPTIC_REPORT_LEN, HEADSET_BATTERY_CC, HEADSET_BATTERY_CI, HEADSET_DEVICE_STATUS_CC,
    HEADSET_DEVICE_STATUS_CI, HEADSET_STATUS_CC, HEADSET_STATUS_CI, LED_BACKLIGHT, LED_ZERO,
    REPORT_LEN, TRANSACTION_ID_COBRA, TRANSACTION_ID_DA, TRANSACTION_ID_HEADSET, VARSTORE,
};
/// Exact 90-byte match for DeathAdder V2 Pro params, Red (0xFF, 0x00, 0x00).
/// CRC = 0x09^0x0F^0x02^0x01^0x05^0x01^0x01^0xFF = 0xFF
#[test]
fn test_static_color_payload_generation() {
    let mut expected = [0u8; 90];
    expected[1] = TRANSACTION_ID_DA; // 0x3F
    expected[5] = 0x09;
    expected[6] = 0x0F;
    expected[7] = 0x02;
    expected[8] = 0x01; // VARSTORE
    expected[9] = LED_BACKLIGHT; // 0x05
    expected[10] = 0x01; // STATIC
    expected[13] = 0x01; // colour count
    expected[14] = 0xFF; // R
    expected[88] = 0xFF; // CRC

    let got = build_static_color_payload(TRANSACTION_ID_DA, LED_BACKLIGHT, 0xFF, 0x00, 0x00);
    assert_eq!(got, expected, "DA V2 Pro red payload mismatch");
}

/// Cobra Pro params (transaction_id=0x1F, led_id=0x00), Red.
/// CRC = 0x09^0x0F^0x02^0x01^0x00^0x01^0x01^0xFF = 0xFA
#[test]
fn test_static_color_payload_cobra_pro() {
    let payload = build_static_color_payload(TRANSACTION_ID_COBRA, LED_ZERO, 0xFF, 0x00, 0x00);
    assert_eq!(payload[1], TRANSACTION_ID_COBRA, "transaction_id mismatch");
    assert_eq!(payload[9], LED_ZERO, "led_id mismatch");
    assert_eq!(payload[14], 0xFF, "R mismatch");
    assert_eq!(payload[88], 0xFA, "CRC mismatch");
}

/// Pure-black CRC for Cobra Pro params.
/// CRC = 0x09^0x0F^0x02^0x01^0x00^0x01^0x01 = 0x05
#[test]
fn test_static_color_payload_black() {
    let payload = build_static_color_payload(TRANSACTION_ID_COBRA, LED_ZERO, 0x00, 0x00, 0x00);
    assert_eq!(payload[88], 0x05, "CRC should be 0x05 for Cobra Pro black");
    assert_eq!(payload[14], 0x00);
    assert_eq!(payload[15], 0x00);
    assert_eq!(payload[16], 0x00);
}

/// Struct layout spot-check with Cobra Pro params.
#[test]
fn test_static_color_payload_layout() {
    let payload = build_static_color_payload(TRANSACTION_ID_COBRA, LED_ZERO, 0x11, 0x22, 0x33);
    assert_eq!(payload[0], 0x00, "status must be 0x00");
    assert_eq!(payload[1], TRANSACTION_ID_COBRA, "transaction_id mismatch");
    assert_eq!(payload[5], 0x09, "data_size must be 9");
    assert_eq!(payload[6], 0x0F, "command_class must be 0x0F");
    assert_eq!(payload[7], 0x02, "command_id must be 0x02");
    assert_eq!(payload[9], LED_ZERO, "led zone must be ZERO (0x00)");
    assert_eq!(payload[14], 0x11, "R mismatch");
    assert_eq!(payload[15], 0x22, "G mismatch");
    assert_eq!(payload[16], 0x33, "B mismatch");
    assert_eq!(payload[89], 0x00, "reserved byte must be 0x00");
}

// ── Battery query tests ───────────────────────────────────────────────────

/// Battery level query for Cobra Pro (transaction_id=0x1F).
/// CRC = 0x02 ^ 0x07 ^ 0x80 = 0x85
#[test]
fn test_battery_query_payload_cobra_pro() {
    let payload = build_battery_query_payload(TRANSACTION_ID_COBRA);
    assert_eq!(payload[0], 0x00, "status must be 0x00");
    assert_eq!(payload[1], TRANSACTION_ID_COBRA, "transaction_id mismatch");
    assert_eq!(payload[5], 0x02, "data_size must be 2");
    assert_eq!(payload[6], CMD_CLASS_BATTERY, "command_class must be 0x07");
    assert_eq!(payload[7], CMD_ID_BATTERY_LEVEL, "command_id must be 0x80");
    assert_eq!(payload[89], 0x00, "reserved byte must be 0x00");
    // CRC: 0x02 ^ 0x07 ^ 0x80 = 0x85
    assert_eq!(payload[88], 0x85, "CRC mismatch");
}

/// Charging status query for Cobra Pro (transaction_id=0x1F).
/// CRC = 0x02 ^ 0x07 ^ 0x84 = 0x81
#[test]
fn test_charging_query_payload_cobra_pro() {
    let payload = build_charging_query_payload(TRANSACTION_ID_COBRA);
    assert_eq!(payload[1], TRANSACTION_ID_COBRA, "transaction_id mismatch");
    assert_eq!(payload[5], 0x02, "data_size must be 2");
    assert_eq!(payload[6], CMD_CLASS_BATTERY, "command_class must be 0x07");
    assert_eq!(
        payload[7], CMD_ID_CHARGING_STATUS,
        "command_id must be 0x84"
    );
    // CRC: 0x02 ^ 0x07 ^ 0x84 = 0x81
    assert_eq!(payload[88], 0x81, "CRC mismatch");
}

/// DA V2 Pro uses a different transaction_id (0x3F); CRC must reflect that.
/// CRC = 0x02 ^ 0x07 ^ 0x80 = 0x85  (transaction_id is byte[1], outside CRC range)
#[test]
fn test_battery_query_payload_da_v2_pro() {
    let payload = build_battery_query_payload(TRANSACTION_ID_DA);
    assert_eq!(payload[1], TRANSACTION_ID_DA, "transaction_id mismatch");
    assert_eq!(payload[6], CMD_CLASS_BATTERY);
    assert_eq!(payload[7], CMD_ID_BATTERY_LEVEL);
    // CRC bytes [2..88] are identical to Cobra Pro — transaction_id at [1] is outside range
    assert_eq!(
        payload[88], 0x85,
        "CRC should be same regardless of transaction_id"
    );
}

/// Kraken V4 Pro Static Red (255, 0, 0).
/// Non-zero bytes in [2..88]: [5]=0x05, [6]=0x0F, [7]=0x02, [8]=0xFF
/// CRC = 0x05 ^ 0x0F ^ 0x02 ^ 0xFF = 0xF7
#[test]
fn test_kraken_v4_static_payload_red() {
    let mut expected = [0u8; 90];
    expected[1] = 0xFF;
    expected[5] = 0x05;
    expected[6] = 0x0F;
    expected[7] = 0x02;
    expected[8] = 0xFF; // R
    expected[9] = 0x00; // G
    expected[10] = 0x00; // B
    expected[88] = 0xF7; // Pre-calculated XOR

    let got = build_kraken_v4_static_payload(0xFF, 0x00, 0x00);
    assert_eq!(got, expected, "Kraken V4 Pro red payload mismatch");
}

// ── Breathing effect tests ────────────────────────────────────────────────

/// Breathing Single, Cobra Pro params (txn=0x1F, led=0x00), Red (0xFF,0,0).
/// Non-zero bytes [2..88]: [5]=0x09, [6]=0x0F, [7]=0x02, [8]=0x01,
///   [9]=0x00(LED_ZERO), [10]=0x02, [13]=0x01(count), [14]=0xFF(R)
/// CRC = 0x09^0x0F^0x02^0x01^0x02^0x01^0xFF = 0xF9
#[test]
fn test_breathing_payload_cobra_pro_red() {
    let payload = build_breathing_payload(TRANSACTION_ID_COBRA, LED_ZERO, 0xFF, 0x00, 0x00);
    assert_eq!(payload[1], TRANSACTION_ID_COBRA, "transaction_id mismatch");
    assert_eq!(payload[5], 0x09, "data_size must be 9");
    assert_eq!(payload[6], CMD_CLASS);
    assert_eq!(payload[7], CMD_ID);
    assert_eq!(payload[8], VARSTORE);
    assert_eq!(payload[9], LED_ZERO);
    assert_eq!(payload[10], EFFECT_BREATHING_SINGLE);
    assert_eq!(payload[13], 0x01, "colour count must be 1");
    assert_eq!(payload[14], 0xFF, "R mismatch");
    assert_eq!(payload[15], 0x00, "G mismatch");
    assert_eq!(payload[16], 0x00, "B mismatch");
    assert_eq!(payload[88], 0xF9, "CRC mismatch");
}

// ── Spectrum effect tests ─────────────────────────────────────────────────

/// Spectrum, Cobra Pro params (txn=0x1F, led=0x00).
/// Non-zero bytes [2..88]: [5]=0x03, [6]=0x0F, [7]=0x02, [8]=0x01, [10]=0x04
/// CRC = 0x03^0x0F^0x02^0x01^0x04 = 0x0B
#[test]
fn test_spectrum_payload_cobra_pro() {
    let payload = build_spectrum_payload(TRANSACTION_ID_COBRA, LED_ZERO);
    assert_eq!(payload[1], TRANSACTION_ID_COBRA, "transaction_id mismatch");
    assert_eq!(payload[5], 0x03, "data_size must be 3");
    assert_eq!(payload[6], CMD_CLASS);
    assert_eq!(payload[7], CMD_ID);
    assert_eq!(payload[8], VARSTORE);
    assert_eq!(payload[9], LED_ZERO);
    assert_eq!(payload[10], EFFECT_SPECTRUM);
    // RGB bytes must be zero — spectrum carries no colour data
    assert_eq!(payload[14], 0x00);
    assert_eq!(payload[15], 0x00);
    assert_eq!(payload[16], 0x00);
    assert_eq!(payload[88], 0x0B, "CRC mismatch");
}

// ── Battery payload + parse round-trip ────────────────────────────────────

/// Verifies that `build_battery_query_payload` generates a correct HID
/// report AND that `parse_battery_response` correctly converts the raw
/// 0–255 hardware value at index 9 into a 0–100 % integer.
#[test]
fn test_battery_payload_and_parse() {
    // ── Payload generation ────────────────────────────────────────────
    let payload = build_battery_query_payload(TRANSACTION_ID_COBRA);
    assert_eq!(payload[5], 0x02, "data_size must be 2");
    assert_eq!(payload[6], CMD_CLASS_BATTERY, "command class must be 0x07");
    assert_eq!(payload[7], CMD_ID_BATTERY_LEVEL, "command id must be 0x80");

    // ── Parse: 255 raw → 100 % ────────────────────────────────────────
    let mut response = [0u8; REPORT_LEN];
    response[9] = 255;
    assert_eq!(parse_battery_response(&response), 100);

    // ── Parse: 128 raw → 50 % (integer: 128*100/255 = 50) ────────────
    response[9] = 128;
    assert_eq!(parse_battery_response(&response), 50);

    // ── Parse: 0 raw → 0 % ───────────────────────────────────────────
    response[9] = 0;
    assert_eq!(parse_battery_response(&response), 0);

    // ── Parse: 191 raw → 74 % (191*100/255 = 74) ─────────────────────
    response[9] = 191;
    assert_eq!(parse_battery_response(&response), 74);
}

// ── DPI payload tests ─────────────────────────────────────────────────────

/// 800 DPI on both axes for Cobra Pro (txn_id = 0x1F).
///
/// 800 = 0x0320  →  high = 0x03, low = 0x20
///
/// Non-zero bytes in [2..88]:
///   [5]=0x07, [6]=0x04, [7]=0x05, [8]=0x01(VARSTORE),
///   [9]=0x03, [10]=0x20, [11]=0x03, [12]=0x20
///
/// CRC = 0x07 ^ 0x04 ^ 0x05 ^ 0x01 ^ 0x03 ^ 0x20 ^ 0x03 ^ 0x20 = 0x07
#[test]
fn test_set_dpi_payload_800_800() {
    let payload = build_set_dpi_payload(TRANSACTION_ID_COBRA, 800, 800);

    assert_eq!(payload[0], 0x00, "status must be 0x00");
    assert_eq!(payload[1], TRANSACTION_ID_COBRA, "transaction_id mismatch");
    assert_eq!(payload[5], 0x07, "data_size must be 7");
    assert_eq!(payload[6], CMD_CLASS_SENSOR, "command_class must be 0x04");
    assert_eq!(payload[7], CMD_ID_SET_DPI, "command_id must be 0x05");
    assert_eq!(payload[8], VARSTORE, "args[0] must be VARSTORE");
    // dpi_x = 800 = 0x0320
    assert_eq!(payload[9], 0x03, "dpi_x high byte mismatch");
    assert_eq!(payload[10], 0x20, "dpi_x low byte mismatch");
    // dpi_y = 800 = 0x0320
    assert_eq!(payload[11], 0x03, "dpi_y high byte mismatch");
    assert_eq!(payload[12], 0x20, "dpi_y low byte mismatch");
    assert_eq!(payload[88], 0x07, "CRC mismatch");
    assert_eq!(payload[89], 0x00, "reserved byte must be 0x00");
}

/// Asymmetric DPI: X=1600 (0x0640), Y=400 (0x0190) for DA V2 Pro.
///
/// CRC = 0x07 ^ 0x04 ^ 0x05 ^ 0x01 ^ 0x06 ^ 0x40 ^ 0x01 ^ 0x90 = 0xD4
#[test]
fn test_set_dpi_payload_asymmetric() {
    let payload = build_set_dpi_payload(TRANSACTION_ID_DA, 1600, 400);

    // 1600 = 0x0640
    assert_eq!(payload[9], 0x06, "dpi_x high (1600)");
    assert_eq!(payload[10], 0x40, "dpi_x low (1600)");
    // 400 = 0x0190
    assert_eq!(payload[11], 0x01, "dpi_y high (400)");
    assert_eq!(payload[12], 0x90, "dpi_y low (400)");
    assert_eq!(payload[88], 0xD0, "CRC mismatch for asymmetric DPI");
}

// ── Headset audio / haptic payload tests ─────────────────────────────────

/// Sidetone at level=50 (0x32).
///
/// Non-zero bytes in [2..88]: [5]=0x01, [6]=0x04, [7]=0x04, [8]=0x32
/// CRC = 0x01 ^ 0x04 ^ 0x04 ^ 0x32 = 0x33
/// (byte[1]=0xFF is the transaction_id and lies outside the XOR range [2..88])
#[test]
fn test_sidetone_payload_generation() {
    let payload = build_set_sidetone_payload(50);

    assert_eq!(payload[0], 0x00, "status must be 0x00 (new command)");
    assert_eq!(
        payload[1], TRANSACTION_ID_HEADSET,
        "transaction_id must be 0xFF"
    );
    assert_eq!(payload[5], 0x01, "data_size must be 1 for sidetone");
    assert_eq!(
        payload[6], CMD_CLASS_SENSOR,
        "command_class must be 0x04 (audio)"
    );
    assert_eq!(
        payload[7], CMD_ID_SET_SIDETONE,
        "command_id must be 0x04 (sidetone)"
    );
    assert_eq!(payload[8], 50, "level byte must be at args[0] (byte 8)");
    assert_eq!(payload[89], 0x00, "reserved byte must be 0x00");

    // Verify checksum is self-consistent.
    let recomputed: u8 = payload[2..88].iter().fold(0u8, |acc, &b| acc ^ b);
    assert_eq!(recomputed, payload[88], "XOR checksum mismatch");
    assert_eq!(payload[88], 0x33, "CRC mismatch for sidetone level=50");
}

/// Sidetone at level=0 should still form a valid payload (silence).
#[test]
fn test_sidetone_payload_zero_level() {
    let payload = build_set_sidetone_payload(0);
    assert_eq!(payload[8], 0x00, "level byte must be 0");
    // CRC = 0x01 ^ 0x04 ^ 0x04 = 0x01
    assert_eq!(payload[88], 0x01, "CRC mismatch for sidetone level=0");
    let recomputed: u8 = payload[2..88].iter().fold(0u8, |acc, &b| acc ^ b);
    assert_eq!(recomputed, payload[88]);
}

/// Haptic intensity at level=75 (0x4B).
///
/// Non-zero bytes in [2..88]: [5]=0x01, [6]=0x04, [7]=0x07, [8]=0x4B
/// CRC = 0x01 ^ 0x04 ^ 0x07 ^ 0x4B = 0x49
#[test]
fn test_haptic_payload_generation() {
    let payload = build_set_haptic_payload(75);

    assert_eq!(payload[0], 0x00, "status must be 0x00 (new command)");
    assert_eq!(
        payload[1], TRANSACTION_ID_HEADSET,
        "transaction_id must be 0xFF"
    );
    assert_eq!(payload[5], 0x01, "data_size must be 1 for haptics");
    assert_eq!(
        payload[6], CMD_CLASS_SENSOR,
        "command_class must be 0x04 (audio)"
    );
    assert_eq!(
        payload[7], CMD_ID_SET_HAPTIC_INTENSITY,
        "command_id must be 0x07 (haptics)"
    );
    assert_eq!(payload[8], 75, "level byte must be at args[0] (byte 8)");
    assert_eq!(payload[9], 0x00, "byte 9 must be unused (0x00)");
    assert_eq!(payload[89], 0x00, "reserved byte must be 0x00");

    // CRC = 0x01 ^ 0x04 ^ 0x07 ^ 0x4B = 0x49
    let recomputed: u8 = payload[2..88].iter().fold(0u8, |acc, &b| acc ^ b);
    assert_eq!(recomputed, payload[88], "XOR checksum mismatch");
    assert_eq!(payload[88], 0x49, "CRC mismatch for haptic level=75");
}

/// Haptic at level=0 — disables haptics.
#[test]
fn test_haptic_payload_zero_level() {
    let payload = build_set_haptic_payload(0);
    assert_eq!(payload[8], 0x00, "level must be 0x00");
    // CRC = 0x01 ^ 0x04 ^ 0x07 = 0x02
    assert_eq!(payload[88], 0x02, "CRC mismatch for haptic level=0");
    let recomputed: u8 = payload[2..88].iter().fold(0u8, |acc, &b| acc ^ b);
    assert_eq!(recomputed, payload[88]);
}

/// Canonical V3-legacy verification test: sidetone level=50.
/// Asserts the exact bytes 6, 7, 8 and a valid XOR checksum.
#[test]
fn test_sidetone_payload_v3_legacy() {
    let payload = build_set_sidetone_payload(50);
    assert_eq!(payload[6], 0x04, "command_class must be 0x04");
    assert_eq!(payload[7], 0x04, "command_id must be 0x04 (sidetone)");
    assert_eq!(payload[8], 50, "level must be at index 8");
    let recomputed: u8 = payload[2..88].iter().fold(0u8, |acc, &b| acc ^ b);
    assert_eq!(
        recomputed, payload[88],
        "XOR checksum is not mathematically valid"
    );
}

/// Canonical V3-legacy verification test: haptic level=50.
/// Asserts the exact bytes 6, 7, 8 and a valid XOR checksum.
#[test]
fn test_haptic_payload_v3_legacy() {
    let payload = build_set_haptic_payload(50);
    assert_eq!(payload[6], 0x04, "command_class must be 0x04");
    assert_eq!(payload[7], 0x07, "command_id must be 0x07 (haptics)");
    assert_eq!(payload[8], 50, "level must be at index 8");
    let recomputed: u8 = payload[2..88].iter().fold(0u8, |acc, &b| acc ^ b);
    assert_eq!(
        recomputed, payload[88],
        "XOR checksum is not mathematically valid"
    );
}

// ── Kraken V4 Pro OLED Hub — 64-byte haptic report ───────────────────────

/// Verify Wireshark-verified fixed bytes and intensity mapping for level=66.
#[test]
fn test_haptic_report_v4_pro_layout() {
    let report = build_haptic_report(66, HAPTIC_COUNTER_START);

    assert_eq!(report.len(), 64, "report must be exactly 64 bytes");
    assert_eq!(report[0], 0x02, "Report ID must be 0x02");
    assert_eq!(report[2], 0x60, "transaction_id must be 0x60");
    assert_eq!(report[6], 0x28, "cmd_class must be 0x28");
    assert_eq!(report[7], 0x17, "cmd_id must be 0x17");
    assert_eq!(report[8], 0x09, "fixed byte[8] must be 0x09");
    assert_eq!(report[9], 0x01, "fixed byte[9] must be 0x01");
    assert_eq!(report[14], 0x02, "field marker byte[14] must be 0x02");
    assert_eq!(report[19], 0x03, "field marker byte[19] must be 0x03");
    assert_eq!(report[24], 0x04, "field marker byte[24] must be 0x04");
    assert_eq!(report[29], 0x05, "field marker byte[29] must be 0x05");
    assert_eq!(report[33], 0x06, "field marker byte[33] must be 0x06");
    assert_eq!(report[38], 0x07, "field marker byte[38] must be 0x07");
    assert_eq!(report[39], 0x09, "fixed byte[39] must be 0x09");
    assert_eq!(report[40], 0x09, "fixed byte[40] must be 0x09");
    assert_eq!(report[43], 0x01, "fixed byte[43] must be 0x01");
    assert_eq!(report[44], 0x08, "fixed byte[44] must be 0x08");

    // Level 66 → haptic_a = 66*78/100 = 51, haptic_b = 60 + 66*21/100 = 73
    assert_eq!(report[10], 51, "haptic_a for level=66");
    assert_eq!(report[16], 73, "haptic_b for level=66");

    // No checksum — trailing bytes must all be zero
    assert_eq!(report[62], 0x00, "no checksum: byte[62] must be 0x00");
    assert_eq!(report[63], 0x00, "padding: byte[63] must be 0x00");
}

/// Intensity 0 must zero out haptic_a and haptic_b.
#[test]
fn test_haptic_report_v4_pro_disable() {
    let report = build_haptic_report(0, HAPTIC_COUNTER_START);
    assert_eq!(report[10], 0x00, "haptic_a must be 0x00 when disabled");
    assert_eq!(report[16], 0x00, "haptic_b must be 0x00 when disabled");
    // All padding bytes should remain zero
    assert_eq!(report[62], 0x00, "no checksum: byte[62] must be 0x00");
}

/// Level 100 produces the maximum observed byte values.
#[test]
fn test_haptic_report_v4_pro_max_intensity() {
    let report = build_haptic_report(100, HAPTIC_COUNTER_START);
    // haptic_a = 100*78/100 = 78, haptic_b = 60 + 100*21/100 = 81
    assert_eq!(report[10], 78, "haptic_a at max level");
    assert_eq!(report[16], 81, "haptic_b at max level");
}

// ── Kraken V4 Pro headset status push packet tests ────────────────────────
//
// Byte arrays taken verbatim from Wireshark `sidehaptics.pcapng`.

/// Valid status push: byte[9]=0x80 → (128 * 100) / 255 = 50 %
///
/// Full first-16-bytes from Wireshark:
///   02 02 60 00 00 00 25 16 5f 80 8b 01 01 01 06 00
#[test]
fn test_parse_headset_push_valid_wireshark() {
    let mut resp = [0u8; HAPTIC_REPORT_LEN];
    resp[0] = 0x02; // report_id
    resp[1] = 0x02; // status=success
    resp[2] = 0x60; // txn_id
    resp[6] = HEADSET_STATUS_CC; // 0x25
    resp[7] = HEADSET_STATUS_CI; // 0x16
    resp[8] = 0x5f; // data_size=95
    resp[9] = 0x80; // raw=128 → 50%
    resp[10] = 0x8b;
    resp[11] = 0x01;
    resp[12] = 0x01;
    resp[13] = 0x01;
    resp[14] = 0x06;

    let pct = parse_headset_push_packet(&resp);
    assert_eq!(pct, Some(50), "0x80 (128) should decode as 50%");
}

/// The haptic ACK packet (cc=0x00/ci=0x17) must be rejected.
///
/// Full first-16-bytes from Wireshark:
///   02 02 60 00 00 00 00 17 09 00 00 00 00 00 00 00
#[test]
fn test_parse_headset_push_wrong_cc_haptic_ack() {
    let mut resp = [0u8; HAPTIC_REPORT_LEN];
    resp[0] = 0x02;
    resp[1] = 0x02;
    resp[2] = 0x60;
    resp[6] = 0x00; // cc=0x00 (haptic ACK, NOT a status push)
    resp[7] = 0x17; // ci=0x17
    resp[8] = 0x09;
    // All data bytes remain 0x00

    assert_eq!(
        parse_headset_push_packet(&resp),
        None,
        "haptic ACK (cc=0x00/ci=0x17) must not be decoded as battery"
    );
}

/// Packets with raw==0x00 (device returned zeros) must be rejected.
#[test]
fn test_parse_headset_push_raw_zero_rejected() {
    let mut resp = [0u8; HAPTIC_REPORT_LEN];
    resp[6] = HEADSET_STATUS_CC;
    resp[7] = HEADSET_STATUS_CI;
    resp[9] = 0x00; // raw=0 → invalid

    assert_eq!(
        parse_headset_push_packet(&resp),
        None,
        "raw=0x00 must be rejected"
    );
}

/// Packets with raw==0xFF (all-ones sentinel) must be rejected.
#[test]
fn test_parse_headset_push_raw_ff_rejected() {
    let mut resp = [0u8; HAPTIC_REPORT_LEN];
    resp[6] = HEADSET_STATUS_CC;
    resp[7] = HEADSET_STATUS_CI;
    resp[9] = 0xFF; // raw=255 → invalid sentinel

    assert_eq!(
        parse_headset_push_packet(&resp),
        None,
        "raw=0xFF must be rejected"
    );
}

/// Verify `build_headset_status_query` byte layout.
/// We expect: byte[0]=0x02, byte[2]=0x60, byte[6]=0x25, byte[7]=0x16, byte[8]=0x01.
/// All other bytes must be 0x00.
#[test]
fn test_build_headset_status_query_layout() {
    let q = build_headset_status_query();
    assert_eq!(q.len(), HAPTIC_REPORT_LEN, "must be exactly 64 bytes");
    assert_eq!(q[0], 0x02, "report_id must be 0x02");
    assert_eq!(q[1], 0x00, "status must be 0x00 (host→device)");
    assert_eq!(q[2], 0x60, "transaction_id must be 0x60");
    assert_eq!(q[6], HEADSET_STATUS_CC, "cc must be 0x25");
    assert_eq!(q[7], HEADSET_STATUS_CI, "ci must be 0x16");
    assert_eq!(q[8], 0x01, "data_size must be 0x01");
    // All other bytes must be zero (no stray bytes)
    for i in [3, 4, 5, 9, 10, 62, 63] {
        assert_eq!(q[i], 0x00, "byte[{i}] must be 0x00");
    }
}

/// cc=0x05/ci=0x00 spontaneous status packet containing battery in byte[8].
///
/// Exact bytes observed in RUST_LOG=debug output every poll cycle:
///   02 02 60 00 00 00 05 00 80 80 20 02 02 00 00 00
/// byte[8]=0x80=128 → 128*100/255 ≈ 50%
#[test]
fn test_parse_headset_0x05_packet_with_battery() {
    let mut pkt = [0u8; HAPTIC_REPORT_LEN];
    pkt[0] = 0x02; // report_id
    pkt[1] = 0x02; // status=success
    pkt[2] = 0x60; // txn_id
    pkt[6] = HEADSET_DEVICE_STATUS_CC; // 0x05
    pkt[7] = HEADSET_DEVICE_STATUS_CI; // 0x00
    pkt[8] = 0x80; // raw battery = 128 → 50%
    pkt[9] = 0x80;
    pkt[10] = 0x20;
    pkt[11] = 0x02;
    pkt[12] = 0x02;

    let pct = parse_headset_push_packet(&pkt);
    assert_eq!(
        pct,
        Some(50),
        "0x80 raw in cc=0x05 packet should decode as 50%"
    );
}

/// cc=0x05/ci=0x00 packet with byte[8]=0x00 (zero battery) must be rejected.
#[test]
fn test_parse_headset_0x05_packet_zero_rejected() {
    let mut pkt = [0u8; HAPTIC_REPORT_LEN];
    pkt[6] = HEADSET_DEVICE_STATUS_CC; // 0x05
    pkt[7] = HEADSET_DEVICE_STATUS_CI; // 0x00
    pkt[8] = 0x00; // zero → invalid

    assert_eq!(
        parse_headset_push_packet(&pkt),
        None,
        "cc=0x05 with byte[8]=0x00 must be rejected"
    );
}

/// cc=0x25/ci=0x16 with data_size=0x01 (1-byte ACK, byte[9]=0x00) must be rejected.
///
/// Exact bytes observed in RUST_LOG=debug every poll cycle (query ACK, not a full push):
///   02 02 60 00 00 00 25 16 01 00 00 01 00 00 00 00
/// byte[8]=0x01 means data_size=1 → this is just an ACK, not a battery status push.
#[test]
fn test_parse_headset_push_1byte_ack_rejected() {
    let mut pkt = [0u8; HAPTIC_REPORT_LEN];
    pkt[0] = 0x02;
    pkt[1] = 0x02;
    pkt[2] = 0x60;
    pkt[6] = HEADSET_STATUS_CC; // 0x25
    pkt[7] = HEADSET_STATUS_CI; // 0x16
    pkt[8] = 0x01; // data_size=1 → 1-byte ACK
    pkt[9] = 0x00; // arg[0]=0x00 (no battery data)
    pkt[11] = 0x01;

    assert_eq!(
        parse_headset_push_packet(&pkt),
        None,
        "cc=0x25 1-byte ACK (byte[8]=0x01) must be rejected (not a full status push)"
    );
}

/// cc=0x07/ci=0x80 is the standard Razer battery query response format.
///
/// Confirmed from the C driver `razermouse_driver.c`:
///   `razer_chroma_misc_get_battery_level()` → `get_razer_report(0x07, 0x80, 0x02)`
///   `response.arguments[1]` = battery (0-100 scale, NOT 0-255 unlike status pushes)
///
/// In the 64-byte HID packet layout (with report_id at byte[0]):
///   byte[6]  = 0x07  cc
///   byte[7]  = 0x80  ci
///   byte[8+] = arguments[0..]
///   byte[10] = arguments[1] = battery percentage (0–100 directly)
#[test]
fn test_parse_headset_standard_battery_query_response() {
    let mut pkt = [0u8; HAPTIC_REPORT_LEN];
    pkt[0] = 0x02; // report_id
    pkt[1] = 0x02; // status=success
    pkt[2] = 0x60; // txn_id
    pkt[6] = HEADSET_BATTERY_CC; // 0x07
    pkt[7] = HEADSET_BATTERY_CI; // 0x80
    pkt[8] = 0x00; // arguments[0] = 0 (unused in battery response)
    pkt[9] = 0x00; // arguments[0] continued
    pkt[10] = 74; // arguments[1] = battery = 74% directly (0-100 scale)

    let pct = parse_headset_push_packet(&pkt);
    assert_eq!(
        pct,
        Some(74),
        "cc=0x07/ci=0x80 standard battery query: byte[10]=74 should decode as 74%"
    );
}

/// cc=0x07/ci=0x80 with byte[10]=0 must be rejected (no battery data).
#[test]
fn test_parse_headset_standard_battery_query_zero_rejected() {
    let mut pkt = [0u8; HAPTIC_REPORT_LEN];
    pkt[6] = HEADSET_BATTERY_CC; // 0x07
    pkt[7] = HEADSET_BATTERY_CI; // 0x80
    pkt[10] = 0x00;

    assert_eq!(
        parse_headset_push_packet(&pkt),
        None,
        "cc=0x07 with byte[10]=0x00 must be rejected"
    );
}
