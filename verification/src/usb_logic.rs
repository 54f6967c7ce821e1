//! Decisions of the USB battery query: which sysfs entries to read and which
//! reading wins, how a GET_REPORT answer is judged, when the wired
//! companion interface is consulted, and where the charging flag comes from.

use vstd::prelude::*;

use crate::daemon::{resolve_battery_state, spec_resolve_battery};
use crate::protocol::{BatteryState, ConnectionType};
use crate::razer_protocol::{
    battery_raw_to_percent, raw_to_percent, spec_validate_response, validate_response,
    CMD_CLASS_BATTERY, CMD_ID_BATTERY_LEVEL, CMD_ID_CHARGING_STATUS, REPORT_LEN,
};
use crate::text::{
    append_hex, chars_of, contains, contains_chars, hex_fixed, parse_decimal_chars,
    spec_parse_decimal, spec_trim, trim_bounds,
};

verus! {

/// The `uevent` line that identifies a Razer HID device in sysfs:
/// `"HID_ID=0003:00001532:"` followed by the PID as 8 upper-case hex digits.
pub fn sysfs_hid_id(pid: u16) -> (s: String)
    ensures
        s@ == "HID_ID=0003:00001532:"@ + hex_fixed(pid as nat, 8, true),
{
    let mut s = "HID_ID=0003:00001532:".to_owned();
    append_hex(&mut s, pid as u64, 8, true);
    s
}

/// Whether the `uevent` text of a HID device names the Razer device `pid`,
/// i.e. holds the line [`sysfs_hid_id`] builds.
pub fn uevent_matches(uevent: &str, pid: u16) -> (r: bool)
    ensures
        r == contains(uevent@, "HID_ID=0003:00001532:"@ + hex_fixed(pid as nat, 8, true)),
{
    let target = sysfs_hid_id(pid);
    let text = chars_of(uevent);
    let pattern = chars_of(target.as_str());
    contains_chars(&text, &pattern)
}

/// The number in a sysfs attribute file such as `charge_level` (`"255\n"`):
/// the text without surrounding whitespace, read as a `u8`.
pub fn parse_sysfs_u8(text: &str) -> (r: Option<u8>)
    ensures
        r == (match spec_parse_decimal(spec_trim(text@), 255) {
            Some(n) => Some(n as u8),
            None => None,
        }),
{
    let v = chars_of(text);
    let (a, b) = trim_bounds(&v);
    match parse_decimal_chars(&v, a, b, 255) {
        Some(n) => Some(n as u8),
        None => None,
    }
}

/// The reading chosen among sysfs entries: (percentage, charging). The first
/// entry wins unless it reads 0 % and a later entry has a non-zero raw level;
/// a `charge_status` of exactly 1 means charging.
pub open spec fn spec_sysfs_best(readings: Seq<(u8, u8)>) -> Option<(u8, bool)>
    decreases readings.len(),
{
    if readings.len() == 0 {
        None
    } else {
        let prev = spec_sysfs_best(readings.drop_last());
        let (level_raw, status_raw) = readings.last();
        let take = match prev {
            None => true,
            Some((p, _)) => level_raw > 0 && p == 0,
        };
        if take {
            Some((raw_to_percent(level_raw), status_raw == 1))
        } else {
            prev
        }
    }
}

/// The battery state read from the openrazer sysfs entries of a device, given
/// each entry's (`charge_level` 0–255, `charge_status`); `None` without entries.
pub fn sysfs_battery_state(readings: &[(u8, u8)]) -> (r: Option<BatteryState>)
    ensures
        r == (match spec_sysfs_best(readings@) {
            Some((pct, charging)) => Some(spec_resolve_battery(pct, charging)),
            None => None,
        }),
{
    let mut best: Option<(u8, bool)> = None;
    let mut i: usize = 0;
    while i < readings.len()
        invariant
            i <= readings@.len(),
            best == spec_sysfs_best(readings@.take(i as int)),
        decreases readings@.len() - i,
    {
        proof {
            assert(readings@.take(i + 1).drop_last() =~= readings@.take(i as int));
        }
        let (level_raw, status_raw) = readings[i];
        let take = match best {
            None => true,
            Some((p, _)) => level_raw > 0 && p == 0,
        };
        if take {
            best = Some((battery_raw_to_percent(level_raw), status_raw == 1));
        }
        i = i + 1;
    }
    proof {
        assert(readings@.take(i as int) =~= readings@);
    }
    match best {
        Some((pct, charging)) => Some(resolve_battery_state(pct, charging)),
        None => None,
    }
}

/// The PIDs whose sysfs entries are tried, in order: over the dongle with the
/// wired companion plugged in, the companion first (the dongle reads 0 while
/// the cable charges); the queried PID always.
pub fn sysfs_query_order(
    product_id: u16,
    connection: ConnectionType,
    wired_companion: Option<u16>,
    companion_present: bool,
) -> (v: Vec<u16>)
    ensures
        v@ == (match wired_companion {
            Some(w) => if connection == ConnectionType::Dongle && companion_present {
                seq![w, product_id]
            } else {
                seq![product_id]
            },
            None => seq![product_id],
        }),
{
    let mut v: Vec<u16> = Vec::new();
    if let Some(w) = wired_companion {
        if connection == ConnectionType::Dongle && companion_present {
            v.push(w);
        }
    }
    v.push(product_id);
    v
}

/// Milliseconds to wait before retrying a busy query: short over the cable,
/// long enough for a sleeping wireless device to wake otherwise.
pub fn retry_delay_ms(connection: ConnectionType) -> (ms: u64)
    ensures
        ms == (if connection == ConnectionType::Wired {
            20u64
        } else {
            1500u64
        }),
{
    if connection == ConnectionType::Wired {
        20
    } else {
        1500
    }
}

/// Wireless devices (dongle or Bluetooth) are put into driver mode before
/// they are queried.
pub fn needs_driver_mode(connection: ConnectionType) -> (r: bool)
    ensures
        r == (connection != ConnectionType::Wired),
{
    connection != ConnectionType::Wired
}

/// One step of a query's retry loop.
#[derive(Debug, Clone, Copy, PartialEq, Eq, Structural)]
pub enum QueryStep<T> {
    /// The answer is valid and carries this value.
    Done(T),
    /// The firmware is busy: wait and ask again.
    Retry,
    /// The answer is a failure.
    Fail,
}

/// The step a GET_REPORT answer gives: `Done` with `value` when it validates
/// against the command, `Retry` when busy, `Fail` otherwise.
pub open spec fn spec_query_step<T>(resp: Seq<u8>, command_id: u8, value: T) -> QueryStep<T> {
    match spec_validate_response(resp[0], resp[6], resp[7], CMD_CLASS_BATTERY, command_id) {
        Ok(()) => QueryStep::Done(value),
        Err(false) => QueryStep::Retry,
        Err(true) => QueryStep::Fail,
    }
}

/// Judges the answer to a battery level query: the level is in byte 9
/// (0–255), scaled to 0–100 %.
pub fn level_query_step(resp: &[u8; REPORT_LEN]) -> (r: QueryStep<u8>)
    ensures
        r == spec_query_step(resp@, CMD_ID_BATTERY_LEVEL, raw_to_percent(resp@[9])),
{
    match validate_response(resp, CMD_CLASS_BATTERY, CMD_ID_BATTERY_LEVEL) {
        Ok(()) => QueryStep::Done(battery_raw_to_percent(resp[9])),
        Err(false) => QueryStep::Retry,
        Err(true) => QueryStep::Fail,
    }
}

/// Judges the answer to a charging status query: byte 9 non-zero means
/// charging.
pub fn charging_query_step(resp: &[u8; REPORT_LEN]) -> (r: QueryStep<bool>)
    ensures
        r == spec_query_step(resp@, CMD_ID_CHARGING_STATUS, resp@[9] != 0),
{
    match validate_response(resp, CMD_CLASS_BATTERY, CMD_ID_CHARGING_STATUS) {
        Ok(()) => QueryStep::Done(resp[9] != 0),
        Err(false) => QueryStep::Retry,
        Err(true) => QueryStep::Fail,
    }
}

/// Whether the wired companion interface is asked for the level: over the
/// dongle, with a companion that is plugged in, when the dongle answered 0 %
/// or gave up.
pub fn wired_level_fallback(
    connection: ConnectionType,
    wired_companion: Option<u16>,
    companion_present: bool,
    primary: Option<u8>,
) -> (r: Option<u16>)
    ensures
        r == (match wired_companion {
            Some(w) => if connection == ConnectionType::Dongle && companion_present && (primary
                == Some(0u8) || primary is None) {
                Some(w)
            } else {
                None
            },
            None => None,
        }),
{
    match wired_companion {
        Some(w) => {
            let primary_empty = match primary {
                Some(p) => p == 0,
                None => true,
            };
            if connection == ConnectionType::Dongle && companion_present && primary_empty {
                Some(w)
            } else {
                None
            }
        },
        None => None,
    }
}

/// The battery level after consulting the companion: a 0 % dongle answer is
/// replaced by a non-zero companion answer; a failed dongle query by any
/// companion answer; `wired` is `None` when the companion was not asked.
pub open spec fn spec_merge_level(primary: Option<u8>, wired: Option<Option<u8>>) -> Option<u8> {
    match primary {
        Some(p) => if p == 0 {
            match wired {
                Some(Some(w)) => if w > 0 {
                    Some(w)
                } else {
                    Some(0u8)
                },
                _ => Some(0u8),
            }
        } else {
            Some(p)
        },
        None => match wired {
            Some(Some(w)) => Some(w),
            _ => None,
        },
    }
}

/// Merges the dongle's battery level with the companion's (see
/// [`spec_merge_level`]); `None` means the query failed.
pub fn merge_battery_level(primary: Option<u8>, wired: Option<Option<u8>>) -> (r: Option<u8>)
    ensures
        r == spec_merge_level(primary, wired),
{
    match primary {
        Some(p) => if p == 0 {
            match wired {
                Some(Some(w)) => if w > 0 {
                    Some(w)
                } else {
                    Some(0)
                },
                _ => Some(0),
            }
        } else {
            Some(p)
        },
        None => match wired {
            Some(Some(w)) => Some(w),
            _ => None,
        },
    }
}

/// Where the charging flag comes from: the cable is the power source, so a
/// wired connection, or a dongle connection with the companion's cable
/// plugged in, is charging (`Some(true)`); otherwise the firmware is asked
/// (`None`).
pub fn charging_from_connection(connection: ConnectionType, cable_present: bool) -> (r: Option<bool>)
    ensures
        r == (if connection == ConnectionType::Wired || (connection == ConnectionType::Dongle
            && cable_present) {
            Some(true)
        } else {
            None
        }),
{
    if connection == ConnectionType::Wired || (connection == ConnectionType::Dongle && cable_present) {
        Some(true)
    } else {
        None
    }
}

} // verus!
