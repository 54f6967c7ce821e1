//! Razer USB HID reports: the 90-byte command report shared by mice,
//! keyboards and older headsets, and the 64-byte report of the Kraken V4 Pro
//! hub, with their builders, parsers and the report checksum.

use vstd::prelude::*;

verus! {

/// USB Vendor ID for all Razer devices.
pub const RAZER_VID: u16 = 0x1532;

/// Total length of a Razer USB HID report in bytes.
pub const REPORT_LEN: usize = 90;

/// Command class: Extended Matrix Effects.
pub const CMD_CLASS: u8 = 0x0F;
/// Command ID: Set Effect.
pub const CMD_ID: u8 = 0x02;
/// Volatile variable storage (changes are lost on power-cycle).
pub const VARSTORE: u8 = 0x01;
/// Static solid-colour effect ID.
pub const EFFECT_STATIC: u8 = 0x01;
/// Single-colour breathing effect ID.
pub const EFFECT_BREATHING_SINGLE: u8 = 0x02;
/// Auto spectrum-cycling effect ID.
pub const EFFECT_SPECTRUM: u8 = 0x04;

/// Transaction ID for DeathAdder V2 Pro and similar older wireless mice.
pub const TRANSACTION_ID_DA: u8 = 0x3F;
/// Transaction ID for Cobra Pro, Basilisk V3 Pro, and newer wireless mice.
pub const TRANSACTION_ID_COBRA: u8 = 0x1F;
/// Transaction ID for wireless keyboards reached through the HyperSpeed dongle.
pub const TRANSACTION_ID_KEYBOARD_WIRELESS: u8 = 0x9F;

/// Zero / catch-all LED zone (used by Cobra Pro and many newer mice).
pub const LED_ZERO: u8 = 0x00;
/// Backlight LED zone — covers the logo on DA V2 Pro and similar mice.
pub const LED_BACKLIGHT: u8 = 0x05;

/// Minimum sleep (µs) after SET_REPORT before GET_REPORT for standard mice.
pub const WAIT_STANDARD_US: u64 = 600;
/// Minimum sleep (µs) for Cobra Pro, Basilisk V3 Pro and other new receivers.
pub const WAIT_NEW_RECEIVER_US: u64 = 31_000;
/// Minimum sleep (µs) for Viper Ultimate, DA V2 Pro and Viper receivers.
pub const WAIT_VIPER_RECEIVER_US: u64 = 59_900;

/// Command class for sensor / DPI configuration (also used for audio).
pub const CMD_CLASS_SENSOR: u8 = 0x04;
/// Command ID: set X/Y DPI independently.
pub const CMD_ID_SET_DPI: u8 = 0x05;

/// The firmware is still processing a previous command — wait and retry.
pub const STATUS_BUSY: u8 = 0x01;
/// Command was accepted and the response arguments are valid.
pub const STATUS_SUCCESSFUL: u8 = 0x02;
/// Firmware reported a command failure.
pub const STATUS_FAILURE: u8 = 0x03;
/// Command timed out in firmware.
pub const STATUS_TIMEOUT: u8 = 0x04;
/// Command is not supported by this device/firmware.
pub const STATUS_NOT_SUPPORTED: u8 = 0x05;

/// Command class for battery and power management queries.
pub const CMD_CLASS_BATTERY: u8 = 0x07;
/// Command ID: get battery level (response `arguments[1]` is 0–255).
pub const CMD_ID_BATTERY_LEVEL: u8 = 0x80;
/// Command ID: get charging status (response `arguments[1]` is 0 or 1).
pub const CMD_ID_CHARGING_STATUS: u8 = 0x84;

/// Command class for standard device commands.
pub const CMD_CLASS_STANDARD: u8 = 0x00;
/// Command ID: set device mode.
pub const CMD_ID_SET_DEVICE_MODE: u8 = 0x04;
/// Device mode in which the firmware answers host queries (driver mode).
pub const DEVICE_MODE_DRIVER: u8 = 0x03;

/// Transaction ID for Kraken headsets (V3/V4 generation).
pub const TRANSACTION_ID_HEADSET: u8 = 0xFF;
/// Command ID: set sidetone volume.
pub const CMD_ID_SET_SIDETONE: u8 = 0x04;
/// Command ID: set haptic feedback intensity (HyperSense).
pub const CMD_ID_SET_HAPTIC_INTENSITY: u8 = 0x07;

/// Length of the Kraken V4 Pro Hub proprietary HID report (bytes).
pub const HAPTIC_REPORT_LEN: usize = 64;
/// `cc`/`ci` bytes of Kraken V4 Pro full status push / query packets.
pub const HEADSET_STATUS_CC: u8 = 0x25;
pub const HEADSET_STATUS_CI: u8 = 0x16;
/// `cc`/`ci` bytes of Kraken V4 Pro spontaneous device-status packets.
pub const HEADSET_DEVICE_STATUS_CC: u8 = 0x05;
pub const HEADSET_DEVICE_STATUS_CI: u8 = 0x00;
/// Standard Razer battery query command class / command ID.
pub const HEADSET_BATTERY_CC: u8 = 0x07;
pub const HEADSET_BATTERY_CI: u8 = 0x80;
/// Minimum data_size for a `cc=0x25/ci=0x16` packet to be a full status push;
/// anything below is a query ACK.
pub const HEADSET_STATUS_MIN_DATA_SIZE: u8 = 0x08;
/// First value of the haptic report sequence counter in a session.
pub const HAPTIC_COUNTER_START: u8 = 9;

// ── Checksum ─────────────────────────────────────────────────────────────────

/// XOR of the bytes `s[lo..hi)`.
pub open spec fn xor_range(s: Seq<u8>, lo: int, hi: int) -> u8
    decreases hi - lo,
{
    if hi <= lo {
        0
    } else {
        xor_range(s, lo, hi - 1) ^ s[hi - 1]
    }
}

/// A 90-byte report with its checksum byte (index 88) set to the XOR of
/// bytes `[2..88)`.
pub open spec fn with_checksum(body: Seq<u8>) -> Seq<u8> {
    body.update(88, xor_range(body, 2, 88))
}

/// The body of a 90-byte Razer report (`struct razer_report`): status 0,
/// the transaction ID at byte 1, remaining packets and protocol type 0,
/// `data_size` at 5, command class and ID at 6 and 7, the arguments from
/// byte 8 on, every other byte 0 (checksum not yet set).
pub open spec fn report_body(
    transaction_id: u8,
    data_size: u8,
    command_class: u8,
    command_id: u8,
    args: Seq<u8>,
) -> Seq<u8> {
    Seq::new(
        90,
        |i: int|
            if i == 1 {
                transaction_id
            } else if i == 5 {
                data_size
            } else if i == 6 {
                command_class
            } else if i == 7 {
                command_id
            } else if 8 <= i < 8 + args.len() {
                args[i - 8]
            } else {
                0u8
            },
    )
}

/// A complete 90-byte report: its body with the checksum.
pub open spec fn razer_report(
    transaction_id: u8,
    data_size: u8,
    command_class: u8,
    command_id: u8,
    args: Seq<u8>,
) -> Seq<u8> {
    with_checksum(report_body(transaction_id, data_size, command_class, command_id, args))
}

/// Whether a 90-byte report carries a valid checksum: the XOR of bytes
/// `[2..89)`, checksum included, is zero.
pub open spec fn checksum_valid(report: Seq<u8>) -> bool {
    xor_range(report, 2, 89) == 0
}

proof fn lemma_xor_range_frame(s1: Seq<u8>, s2: Seq<u8>, lo: int, hi: int)
    requires
        forall|i: int| lo <= i < hi ==> s1[i] == s2[i],
    ensures
        xor_range(s1, lo, hi) == xor_range(s2, lo, hi),
    decreases hi - lo,
{
    if hi > lo {
        lemma_xor_range_frame(s1, s2, lo, hi - 1);
    }
}

/// Calculates and inserts the Razer HID report checksum in place: the XOR of
/// bytes `[2..88)` is stored at index 88.
fn calculate_razer_checksum(payload: &mut [u8; REPORT_LEN])
    ensures
        final(payload)@ == with_checksum(old(payload)@),
{
    let mut acc: u8 = 0;
    let mut i: usize = 2;
    while i < 88
        invariant
            2 <= i <= 88,
            payload@.len() == 90,
            acc == xor_range(payload@, 2, i as int),
        decreases 88 - i,
    {
        acc = acc ^ payload[i];
        i = i + 1;
    }
    payload[88] = acc;
}

/// Writes a report body into a zeroed buffer: the header bytes and the
/// arguments, in order.
fn fill_report(
    transaction_id: u8,
    data_size: u8,
    command_class: u8,
    command_id: u8,
    args: &[u8],
) -> (buf: [u8; REPORT_LEN])
    requires
        args@.len() <= 80,
    ensures
        buf@ == razer_report(transaction_id, data_size, command_class, command_id, args@),
{
    let mut buf = [0u8; 90];
    assert(forall|i: int| 0 <= i < 90 ==> buf@[i] == 0u8);
    buf[1] = transaction_id;
    buf[5] = data_size;
    buf[6] = command_class;
    buf[7] = command_id;
    let mut k: usize = 0;
    while k < args.len()
        invariant
            k <= args@.len() <= 80,
            buf@.len() == 90,
            forall|i: int|
                0 <= i < 90 ==> #[trigger] buf@[i] == (if 8 <= i < 8 + k {
                    args@[i - 8]
                } else if 8 + k <= i < 8 + args@.len() {
                    0u8
                } else {
                    report_body(transaction_id, data_size, command_class, command_id, args@)[i]
                }),
        decreases args@.len() - k,
    {
        buf[8 + k] = args[k];
        k = k + 1;
    }
    assert(buf@ =~= report_body(transaction_id, data_size, command_class, command_id, args@));
    calculate_razer_checksum(&mut buf);
    buf
}

// ── Lighting ─────────────────────────────────────────────────────────────────

/// Arguments of a single-colour matrix effect: VARSTORE, LED zone, effect,
/// two padding bytes, colour count 1, then R, G, B.
pub open spec fn colour_effect_args(led_id: u8, effect: u8, r: u8, g: u8, b: u8) -> Seq<u8> {
    seq![VARSTORE, led_id, effect, 0u8, 0u8, 1u8, r, g, b]
}

/// Builds a 90-byte Razer HID report for the Extended Matrix Static effect.
///
/// Byte 1 is `transaction_id`, `data_size` is 9, class 0x0F, command 0x02,
/// arguments VARSTORE, `led_id`, STATIC, 0, 0, colour count 1, `r`, `g`, `b`,
/// and byte 88 the XOR of bytes `[2..88)`.
pub fn build_static_color_payload(transaction_id: u8, led_id: u8, r: u8, g: u8, b: u8) -> (buf:
    [u8; REPORT_LEN])
    ensures
        buf@ == razer_report(
            transaction_id,
            0x09,
            CMD_CLASS,
            CMD_ID,
            colour_effect_args(led_id, EFFECT_STATIC, r, g, b),
        ),
{
    let args: [u8; 9] = [VARSTORE, led_id, EFFECT_STATIC, 0, 0, 1, r, g, b];
    assert(args@ =~= colour_effect_args(led_id, EFFECT_STATIC, r, g, b));
    fill_report(transaction_id, 0x09, CMD_CLASS, CMD_ID, &args)
}

/// Builds a 90-byte Razer HID report for the single-colour Breathing effect:
/// the static layout with effect byte `EFFECT_BREATHING_SINGLE`.
pub fn build_breathing_payload(transaction_id: u8, led_id: u8, r: u8, g: u8, b: u8) -> (buf: [u8;
    REPORT_LEN])
    ensures
        buf@ == razer_report(
            transaction_id,
            0x09,
            CMD_CLASS,
            CMD_ID,
            colour_effect_args(led_id, EFFECT_BREATHING_SINGLE, r, g, b),
        ),
{
    let args: [u8; 9] = [VARSTORE, led_id, EFFECT_BREATHING_SINGLE, 0, 0, 1, r, g, b];
    assert(args@ =~= colour_effect_args(led_id, EFFECT_BREATHING_SINGLE, r, g, b));
    fill_report(transaction_id, 0x09, CMD_CLASS, CMD_ID, &args)
}

/// Builds a 90-byte Razer HID report for the Spectrum effect: no colour data,
/// `data_size` 3, arguments VARSTORE, `led_id`, SPECTRUM.
pub fn build_spectrum_payload(transaction_id: u8, led_id: u8) -> (buf: [u8; REPORT_LEN])
    ensures
        buf@ == razer_report(
            transaction_id,
            0x03,
            CMD_CLASS,
            CMD_ID,
            seq![VARSTORE, led_id, EFFECT_SPECTRUM],
        ),
{
    let args: [u8; 3] = [VARSTORE, led_id, EFFECT_SPECTRUM];
    assert(args@ =~= seq![VARSTORE, led_id, EFFECT_SPECTRUM]);
    fill_report(transaction_id, 0x03, CMD_CLASS, CMD_ID, &args)
}

/// Builds the Kraken V4 Pro static lighting report: transaction ID 0xFF,
/// `data_size` 5, class 0x0F, command 0x02, arguments `r`, `g`, `b`.
pub fn build_kraken_v4_static_payload(r: u8, g: u8, b: u8) -> (buf: [u8; REPORT_LEN])
    ensures
        buf@ == razer_report(0xFF, 0x05, 0x0F, 0x02, seq![r, g, b]),
{
    let args: [u8; 3] = [r, g, b];
    assert(args@ =~= seq![r, g, b]);
    fill_report(0xFF, 0x05, 0x0F, 0x02, &args)
}

// ── Sensor / DPI ─────────────────────────────────────────────────────────────

/// The big-endian high byte of a 16-bit value.
pub open spec fn high_byte(v: u16) -> u8 {
    (v / 256) as u8
}

/// The big-endian low byte of a 16-bit value.
pub open spec fn low_byte(v: u16) -> u8 {
    (v % 256) as u8
}

/// Builds a 90-byte report that sets the mouse DPI for both axes: `data_size`
/// 7, class 0x04, command 0x05, arguments VARSTORE then `dpi_x` and `dpi_y`
/// as big-endian 16-bit values.
pub fn build_set_dpi_payload(transaction_id: u8, dpi_x: u16, dpi_y: u16) -> (buf: [u8;
    REPORT_LEN])
    ensures
        buf@ == razer_report(
            transaction_id,
            0x07,
            CMD_CLASS_SENSOR,
            CMD_ID_SET_DPI,
            seq![VARSTORE, high_byte(dpi_x), low_byte(dpi_x), high_byte(dpi_y), low_byte(dpi_y)],
        ),
{
    let xh = (dpi_x >> 8) as u8;
    let xl = (dpi_x & 0xFF) as u8;
    let yh = (dpi_y >> 8) as u8;
    let yl = (dpi_y & 0xFF) as u8;
    assert(xh == high_byte(dpi_x) && xl == low_byte(dpi_x)) by (bit_vector)
        requires
            xh == (dpi_x >> 8) as u8,
            xl == (dpi_x & 0xFF) as u8,
    ;
    assert(yh == high_byte(dpi_y) && yl == low_byte(dpi_y)) by (bit_vector)
        requires
            yh == (dpi_y >> 8) as u8,
            yl == (dpi_y & 0xFF) as u8,
    ;
    let args: [u8; 5] = [VARSTORE, xh, xl, yh, yl];
    assert(args@ =~= seq![VARSTORE, high_byte(dpi_x), low_byte(dpi_x), high_byte(dpi_y), low_byte(dpi_y)]);
    fill_report(transaction_id, 0x07, CMD_CLASS_SENSOR, CMD_ID_SET_DPI, &args)
}

// ── Battery / power queries ──────────────────────────────────────────────────

/// Builds the report that queries the battery level: `data_size` 2, class
/// 0x07, command 0x80, no argument bytes set.
pub fn build_battery_query_payload(transaction_id: u8) -> (buf: [u8; REPORT_LEN])
    ensures
        buf@ == razer_report(transaction_id, 0x02, CMD_CLASS_BATTERY, CMD_ID_BATTERY_LEVEL, seq![]),
{
    let args: [u8; 0] = [];
    assert(args@ =~= Seq::<u8>::empty());
    fill_report(transaction_id, 0x02, CMD_CLASS_BATTERY, CMD_ID_BATTERY_LEVEL, &args)
}

/// Builds the report that queries the charging status: `data_size` 2, class
/// 0x07, command 0x84, no argument bytes set.
pub fn build_charging_query_payload(transaction_id: u8) -> (buf: [u8; REPORT_LEN])
    ensures
        buf@ == razer_report(
            transaction_id,
            0x02,
            CMD_CLASS_BATTERY,
            CMD_ID_CHARGING_STATUS,
            seq![],
        ),
{
    let args: [u8; 0] = [];
    assert(args@ =~= Seq::<u8>::empty());
    fill_report(transaction_id, 0x02, CMD_CLASS_BATTERY, CMD_ID_CHARGING_STATUS, &args)
}

/// Builds the report that puts a wireless device into driver mode before it
/// is queried: `data_size` 2, class 0x00, command 0x04, arguments driver
/// mode (0x03) and 0.
pub fn build_set_driver_mode_payload(transaction_id: u8) -> (buf: [u8; REPORT_LEN])
    ensures
        buf@ == razer_report(
            transaction_id,
            0x02,
            CMD_CLASS_STANDARD,
            CMD_ID_SET_DEVICE_MODE,
            seq![DEVICE_MODE_DRIVER, 0u8],
        ),
{
    let args: [u8; 2] = [DEVICE_MODE_DRIVER, 0];
    assert(args@ =~= seq![DEVICE_MODE_DRIVER, 0u8]);
    fill_report(transaction_id, 0x02, CMD_CLASS_STANDARD, CMD_ID_SET_DEVICE_MODE, &args)
}

/// The 0–100 % value of a raw 0–255 battery level (integer arithmetic).
pub open spec fn raw_to_percent(raw: u8) -> u8 {
    ((raw as int * 100) / 255) as u8
}

/// Scales a raw 0–255 battery level to 0–100 %.
pub fn battery_raw_to_percent(raw: u8) -> (pct: u8)
    ensures
        pct == raw_to_percent(raw),
        pct as int == (raw as int * 100) / 255,
        pct <= 100,
{
    let p = ((raw as u16) * 100) / 255;
    p as u8
}

/// Extracts the battery percentage from a 90-byte GET_REPORT response:
/// `response[9]` (`arguments[1]`) holds a raw 0–255 level, mapped linearly to
/// 0–100 %.
pub fn parse_battery_response(response: &[u8; REPORT_LEN]) -> (pct: u8)
    ensures
        pct == raw_to_percent(response@[9]),
{
    battery_raw_to_percent(response[9])
}

/// How a GET_REPORT response is judged: `Ok` when the status is successful
/// and the command class and ID are echoed, `Err(false)` when the firmware is
/// busy (retry), `Err(true)` on any other failure.
pub open spec fn spec_validate_response(
    status: u8,
    echoed_class: u8,
    echoed_id: u8,
    command_class: u8,
    command_id: u8,
) -> Result<(), bool> {
    if status == STATUS_BUSY {
        Err(false)
    } else if status != STATUS_SUCCESSFUL {
        Err(true)
    } else if echoed_class != command_class || echoed_id != command_id {
        Err(true)
    } else {
        Ok(())
    }
}

/// Validates a GET_REPORT response against the originating request bytes:
/// `response[0]` must be `STATUS_SUCCESSFUL` (`STATUS_BUSY` asks for a retry),
/// and `response[6]`, `response[7]` must echo the command class and ID.
pub fn validate_response(response: &[u8; REPORT_LEN], command_class: u8, command_id: u8) -> (r:
    Result<(), bool>)
    ensures
        r == spec_validate_response(
            response@[0],
            response@[6],
            response@[7],
            command_class,
            command_id,
        ),
{
    let status = response[0];
    if status == STATUS_BUSY {
        return Err(false);
    }
    if status != STATUS_SUCCESSFUL {
        return Err(true);
    }
    if response[6] != command_class || response[7] != command_id {
        return Err(true);
    }
    Ok(())
}

// ── Headset audio / haptic (90-byte) ─────────────────────────────────────────

/// Builds the report that sets the headset sidetone volume: transaction ID
/// 0xFF, `data_size` 1, class 0x04, command 0x04, argument `level`.
pub fn build_set_sidetone_payload(level: u8) -> (buf: [u8; REPORT_LEN])
    ensures
        buf@ == razer_report(
            TRANSACTION_ID_HEADSET,
            0x01,
            CMD_CLASS_SENSOR,
            CMD_ID_SET_SIDETONE,
            seq![level],
        ),
{
    let args: [u8; 1] = [level];
    assert(args@ =~= seq![level]);
    fill_report(TRANSACTION_ID_HEADSET, 0x01, CMD_CLASS_SENSOR, CMD_ID_SET_SIDETONE, &args)
}

/// Builds the report that sets the haptic feedback intensity: transaction ID
/// 0xFF, `data_size` 1, class 0x04, command 0x07, argument `level`.
pub fn build_set_haptic_payload(level: u8) -> (buf: [u8; REPORT_LEN])
    ensures
        buf@ == razer_report(
            TRANSACTION_ID_HEADSET,
            0x01,
            CMD_CLASS_SENSOR,
            CMD_ID_SET_HAPTIC_INTENSITY,
            seq![level],
        ),
{
    let args: [u8; 1] = [level];
    assert(args@ =~= seq![level]);
    fill_report(TRANSACTION_ID_HEADSET, 0x01, CMD_CLASS_SENSOR, CMD_ID_SET_HAPTIC_INTENSITY, &args)
}

// ── Laws of the 90-byte report ───────────────────────────────────────────────

/// Every report built by this module carries a valid checksum: XORing bytes
/// `[2..89)`, the checksum byte included, gives zero.
pub proof fn lemma_report_checksum_valid(
    transaction_id: u8,
    data_size: u8,
    command_class: u8,
    command_id: u8,
    args: Seq<u8>,
)
    ensures
        checksum_valid(razer_report(transaction_id, data_size, command_class, command_id, args)),
{
    let body = report_body(transaction_id, data_size, command_class, command_id, args);
    let r = razer_report(transaction_id, data_size, command_class, command_id, args);
    lemma_xor_range_frame(r, body, 2, 88);
    let c = xor_range(body, 2, 88);
    assert(c ^ c == 0) by (bit_vector);
}

/// The status byte (0), the remaining-packets and protocol-type bytes (2–4)
/// and the reserved last byte (89) of every report are zero, and the report
/// is exactly 90 bytes long.
pub proof fn lemma_report_fixed_bytes(
    transaction_id: u8,
    data_size: u8,
    command_class: u8,
    command_id: u8,
    args: Seq<u8>,
)
    requires
        args.len() <= 80,
    ensures
        ({
            let r = razer_report(transaction_id, data_size, command_class, command_id, args);
            &&& r.len() == 90
            &&& r[0] == 0 && r[2] == 0 && r[3] == 0 && r[4] == 0 && r[89] == 0
            &&& r[1] == transaction_id && r[5] == data_size
            &&& r[6] == command_class && r[7] == command_id
        }),
{
}

/// The transaction ID lies outside the checksummed range: two reports that
/// differ only in their transaction ID carry the same checksum.
pub proof fn lemma_checksum_ignores_transaction_id(
    t1: u8,
    t2: u8,
    data_size: u8,
    command_class: u8,
    command_id: u8,
    args: Seq<u8>,
)
    ensures
        razer_report(t1, data_size, command_class, command_id, args)[88] == razer_report(
            t2,
            data_size,
            command_class,
            command_id,
            args,
        )[88],
{
    lemma_xor_range_frame(
        report_body(t1, data_size, command_class, command_id, args),
        report_body(t2, data_size, command_class, command_id, args),
        2,
        88,
    );
}

/// The DPI bytes of a report decode back to the requested DPI:
/// `high * 256 + low == dpi` for each axis.
pub proof fn lemma_dpi_bytes_roundtrip(dpi: u16)
    ensures
        high_byte(dpi) as int * 256 + low_byte(dpi) as int == dpi as int,
{
}

/// The battery percentage never exceeds 100 and grows with the raw level.
pub proof fn lemma_raw_to_percent_monotonic(raw1: u8, raw2: u8)
    requires
        raw1 <= raw2,
    ensures
        raw_to_percent(raw1) <= raw_to_percent(raw2) <= 100,
        raw_to_percent(0) == 0,
        raw_to_percent(255) == 100,
{
    assert((raw1 as int * 100) / 255 <= (raw2 as int * 100) / 255) by (nonlinear_arith)
        requires
            raw1 <= raw2,
    ;
    assert((raw2 as int * 100) / 255 <= 100) by (nonlinear_arith)
        requires
            raw2 <= 255,
    ;
}

// ── Kraken V4 Pro hub: 64-byte reports ───────────────────────────────────────

/// A 64-byte hub query: report ID 2, transaction ID 0x60 at byte 2, command
/// class and ID at 6 and 7, `data_size` at 8, every other byte 0.
pub open spec fn hub_query(command_class: u8, command_id: u8, data_size: u8) -> Seq<u8> {
    Seq::new(
        64,
        |i: int|
            if i == 0 {
                0x02u8
            } else if i == 2 {
                0x60u8
            } else if i == 6 {
                command_class
            } else if i == 7 {
                command_id
            } else if i == 8 {
                data_size
            } else {
                0u8
            },
    )
}

fn fill_hub_query(command_class: u8, command_id: u8, data_size: u8) -> (buf: [u8;
    HAPTIC_REPORT_LEN])
    ensures
        buf@ == hub_query(command_class, command_id, data_size),
{
    let mut buf = [0u8; 64];
    assert(forall|i: int| 0 <= i < 64 ==> buf@[i] == 0u8);
    buf[0] = 0x02;
    buf[2] = 0x60;
    buf[6] = command_class;
    buf[7] = command_id;
    buf[8] = data_size;
    assert(buf@ =~= hub_query(command_class, command_id, data_size));
    buf
}

/// Builds the 64-byte query that asks the Kraken V4 Pro to emit a status push
/// (`cc=0x25 / ci=0x16`, `data_size` 1).
pub fn build_headset_status_query() -> (buf: [u8; HAPTIC_REPORT_LEN])
    ensures
        buf@ == hub_query(HEADSET_STATUS_CC, HEADSET_STATUS_CI, 0x01),
{
    fill_hub_query(HEADSET_STATUS_CC, HEADSET_STATUS_CI, 0x01)
}

/// Builds the 64-byte standard battery level query (`cc=0x07 / ci=0x80`,
/// `data_size` 2) for the Kraken V4 Pro.
pub fn build_headset_battery_query() -> (buf: [u8; HAPTIC_REPORT_LEN])
    ensures
        buf@ == hub_query(HEADSET_BATTERY_CC, HEADSET_BATTERY_CI, 0x02),
{
    fill_hub_query(HEADSET_BATTERY_CC, HEADSET_BATTERY_CI, 0x02)
}

/// The battery percentage a Kraken V4 Pro interrupt-IN packet carries.
///
/// Format C (`cc=0x07/ci=0x80`) has the percentage in byte 10 directly,
/// accepted when 1–100. Format A (`cc=0x05/ci=0x00`) has a raw 0–255 level in
/// byte 8; format B (`cc=0x25/ci=0x16`) in byte 9, accepted only when the
/// `data_size` byte 8 is at least 8. A raw level of 0 or 0xFF is rejected;
/// others are scaled to 0–100 %. Any other packet carries no reading.
pub open spec fn spec_headset_battery(resp: Seq<u8>) -> Option<u8> {
    let cc = resp[6];
    let ci = resp[7];
    if cc == HEADSET_BATTERY_CC && ci == HEADSET_BATTERY_CI {
        let pct = resp[10];
        if pct == 0 || pct > 100 {
            None
        } else {
            Some(pct)
        }
    } else {
        let raw: Option<u8> = if cc == HEADSET_DEVICE_STATUS_CC && ci == HEADSET_DEVICE_STATUS_CI {
            Some(resp[8])
        } else if cc == HEADSET_STATUS_CC && ci == HEADSET_STATUS_CI {
            if resp[8] < HEADSET_STATUS_MIN_DATA_SIZE {
                None
            } else {
                Some(resp[9])
            }
        } else {
            None
        };
        match raw {
            Some(r) => if r == 0 || r == 0xFF {
                None
            } else {
                Some(raw_to_percent(r))
            },
            None => None,
        }
    }
}

/// Parses a 64-byte Kraken V4 Pro interrupt-IN packet for a battery reading
/// (see [`spec_headset_battery`] for the three accepted formats).
pub fn parse_headset_push_packet(resp: &[u8; HAPTIC_REPORT_LEN]) -> (r: Option<u8>)
    ensures
        r == spec_headset_battery(resp@),
{
    if resp[6] == HEADSET_BATTERY_CC && resp[7] == HEADSET_BATTERY_CI {
        let pct = resp[10];
        if pct == 0 || pct > 100 {
            return None;
        }
        return Some(pct);
    }
    let raw = if resp[6] == HEADSET_DEVICE_STATUS_CC && resp[7] == HEADSET_DEVICE_STATUS_CI {
        resp[8]
    } else if resp[6] == HEADSET_STATUS_CC && resp[7] == HEADSET_STATUS_CI {
        if resp[8] < HEADSET_STATUS_MIN_DATA_SIZE {
            return None;
        }
        resp[9]
    } else {
        return None;
    };
    if raw == 0x00 || raw == 0xFF {
        return None;
    }
    Some(battery_raw_to_percent(raw))
}

/// What each Kraken V4 Pro packet format yields, byte by byte: class 0x07 /
/// command 0x80 gives byte 10 when it is 1–100; class 0x05 / command 0x00
/// gives byte 8 scaled from 0–255 to 0–100 % unless it is 0 or 0xFF; class
/// 0x25 / command 0x16 with a data size (byte 8) of at least 8 gives byte 9
/// scaled the same way unless it is 0 or 0xFF; every other packet gives
/// nothing.
pub proof fn lemma_headset_battery_formats(resp: Seq<u8>)
    requires
        resp.len() == 64,
    ensures
        resp[6] == 0x07 && resp[7] == 0x80 ==> spec_headset_battery(resp) == (if 1 <= resp[10]
            <= 100 {
            Some(resp[10])
        } else {
            None
        }),
        resp[6] == 0x05 && resp[7] == 0x00 ==> spec_headset_battery(resp) == (if resp[8] == 0
            || resp[8] == 0xFF {
            None
        } else {
            Some(((resp[8] as int * 100) / 255) as u8)
        }),
        resp[6] == 0x25 && resp[7] == 0x16 ==> spec_headset_battery(resp) == (if resp[8] < 8
            || resp[9] == 0 || resp[9] == 0xFF {
            None
        } else {
            Some(((resp[9] as int * 100) / 255) as u8)
        }),
        !((resp[6] == 0x07 && resp[7] == 0x80) || (resp[6] == 0x05 && resp[7] == 0x00) || (resp[6]
            == 0x25 && resp[7] == 0x16)) ==> spec_headset_battery(resp) is None,
{
}


/// A headset battery reading is a percentage: never above 100.
pub proof fn lemma_headset_battery_at_most_100(resp: Seq<u8>)
    requires
        resp.len() == 64,
    ensures
        spec_headset_battery(resp) matches Some(p) ==> p <= 100,
{
    if resp[6] != HEADSET_BATTERY_CC || resp[7] != HEADSET_BATTERY_CI {
        let r8 = resp[8];
        let r9 = resp[9];
        lemma_raw_to_percent_monotonic(r8, 255);
        lemma_raw_to_percent_monotonic(r9, 255);
    }
}

/// Primary haptic intensity byte for a 0–255 UI level: 0 when off, else
/// `level * 78 / 100` but at least 1.
pub open spec fn spec_haptic_a(level: u8) -> u8 {
    if level == 0 {
        0
    } else if (level as int * 78) / 100 < 1 {
        1
    } else {
        ((level as int * 78) / 100) as u8
    }
}

/// Secondary haptic intensity byte: 0 when off, else `60 + level * 21 / 100`.
pub open spec fn spec_haptic_b(level: u8) -> u8 {
    if level == 0 {
        0
    } else {
        (60 + (level as int * 21) / 100) as u8
    }
}

/// The 64-byte hub report that sets haptic intensity: report ID 2,
/// transaction ID 0x60, class 0x28, command 0x17, the fixed bytes and field
/// markers observed on the wire, the two intensity bytes at 10 and 16, the
/// sequence counter at 42, and no checksum.
pub open spec fn spec_haptic_report(level: u8, counter: u8) -> Seq<u8> {
    Seq::new(
        64,
        |i: int|
            if i == 0 {
                0x02u8
            } else if i == 2 {
                0x60u8
            } else if i == 6 {
                0x28u8
            } else if i == 7 {
                0x17u8
            } else if i == 8 {
                0x09u8
            } else if i == 9 {
                0x01u8
            } else if i == 10 {
                spec_haptic_a(level)
            } else if i == 14 {
                0x02u8
            } else if i == 16 {
                spec_haptic_b(level)
            } else if i == 19 {
                0x03u8
            } else if i == 24 {
                0x04u8
            } else if i == 26 {
                0x3Au8
            } else if i == 29 {
                0x05u8
            } else if i == 33 {
                0x06u8
            } else if i == 38 {
                0x07u8
            } else if i == 39 || i == 40 {
                0x09u8
            } else if i == 42 {
                counter
            } else if i == 43 {
                0x01u8
            } else if i == 44 {
                0x08u8
            } else {
                0u8
            },
    )
}

/// Builds the 64-byte Kraken V4 Pro hub report that sets haptic intensity,
/// stamped with the session's sequence `counter` at byte 42.
///
/// Level mapping (UI value → byte 10, byte 16): 0 → (0, 0), 33 → (25, 66),
/// 66 → (51, 73), 100 → (78, 81).
pub fn build_haptic_report(level: u8, counter: u8) -> (buf: [u8; HAPTIC_REPORT_LEN])
    ensures
        buf@ == spec_haptic_report(level, counter),
{
    let (haptic_a, haptic_b): (u8, u8) = if level == 0 {
        (0, 0)
    } else {
        let a16: u16 = (level as u16) * 78 / 100;
        let b16: u16 = 60 + (level as u16) * 21 / 100;
        assert(a16 < 256 && b16 < 256) by (nonlinear_arith)
            requires
                a16 == (level as u16) * 78 / 100,
                b16 == 60 + (level as u16) * 21 / 100,
                level <= 255,
        ;
        let a = a16 as u8;
        (if a < 1 { 1 } else { a }, b16 as u8)
    };
    let mut buf = [0u8; 64];
    assert(forall|i: int| 0 <= i < 64 ==> buf@[i] == 0u8);
    buf[0] = 0x02;
    buf[2] = 0x60;
    buf[6] = 0x28;
    buf[7] = 0x17;
    buf[8] = 0x09;
    buf[9] = 0x01;
    buf[10] = haptic_a;
    buf[14] = 0x02;
    buf[16] = haptic_b;
    buf[19] = 0x03;
    buf[24] = 0x04;
    buf[26] = 0x3A;
    buf[29] = 0x05;
    buf[33] = 0x06;
    buf[38] = 0x07;
    buf[39] = 0x09;
    buf[40] = 0x09;
    buf[42] = counter;
    buf[43] = 0x01;
    buf[44] = 0x08;
    assert(buf@ =~= spec_haptic_report(level, counter));
    buf
}

/// Haptic intensity grows with the UI level, and any non-zero level gives a
/// non-zero primary intensity and a secondary intensity of at least 60.
pub proof fn lemma_haptic_intensity_monotonic(l1: u8, l2: u8)
    requires
        l1 <= l2,
    ensures
        spec_haptic_a(l1) <= spec_haptic_a(l2),
        spec_haptic_b(l1) <= spec_haptic_b(l2),
        l1 > 0 ==> spec_haptic_a(l1) >= 1 && spec_haptic_b(l1) >= 60,
{
    assert((l1 as int * 78) / 100 <= (l2 as int * 78) / 100) by (nonlinear_arith)
        requires
            l1 <= l2,
    ;
    assert((l1 as int * 21) / 100 <= (l2 as int * 21) / 100) by (nonlinear_arith)
        requires
            l1 <= l2,
    ;
    assert((l2 as int * 78) / 100 < 256 && 60 + (l2 as int * 21) / 100 < 256) by (nonlinear_arith)
        requires
            l2 <= 255,
    ;
    assert((l1 as int * 78) / 100 >= 0 && (l1 as int * 21) / 100 >= 0) by (nonlinear_arith)
        requires
            l1 >= 0,
    ;
}

/// The haptic report sequence: the counter stamped on the next hub report,
/// starting at [`HAPTIC_COUNTER_START`] and advancing by one (wrapping
/// 255 → 0) on every report.
pub struct HapticSequencer {
    pub next: u8,
}

impl HapticSequencer {
    /// A sequence that starts at [`HAPTIC_COUNTER_START`].
    pub fn new() -> (s: Self)
        ensures
            s.next == HAPTIC_COUNTER_START,
    {
        HapticSequencer { next: HAPTIC_COUNTER_START }
    }

    /// Builds the haptic report for `level` stamped with the current counter,
    /// and advances the counter by one, wrapping at 255.
    pub fn next_report(&mut self, level: u8) -> (buf: [u8; HAPTIC_REPORT_LEN])
        ensures
            buf@ == spec_haptic_report(level, old(self).next),
            final(self).next as int == (old(self).next as int + 1) % 256,
    {
        let counter = self.next;
        self.next = self.next.wrapping_add(1);
        build_haptic_report(level, counter)
    }
}

} // verus!
