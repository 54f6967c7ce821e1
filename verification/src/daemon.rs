//! Decisions of the daemon's start-up and polling loops: which device is
//! attached and how, and when a battery reading is shown, signalled or
//! discarded.

use vstd::prelude::*;
use vstd::string::StringExecFns;

use crate::protocol::{BatteryState, ConnectionType, RazerProductId};
use crate::razer_protocol::{RAZER_VID, TRANSACTION_ID_COBRA, TRANSACTION_ID_KEYBOARD_WIRELESS};
use crate::registry::{get_device_profile, spec_profile};
use crate::text::{append_hex, hex_fixed};

verus! {

/// PID of the Cobra Pro wired interface (USB cable).
pub const COBRA_PRO_WIRED_PID: u16 = 0x00AF;
/// PID of the Cobra Pro HyperSpeed dongle.
pub const COBRA_PRO_DONGLE_PID: u16 = 0x00B0;
/// PID of the Viper Ultimate wired interface (USB cable).
pub const VIPER_ULTIMATE_WIRED_PID: u16 = 0x007A;
/// PID of the BlackWidow V3 Mini HyperSpeed wired interface.
pub const BLACKWIDOW_V3_MINI_WIRED_PID: u16 = 0x0258;
/// PID of the BlackWidow V3 Mini HyperSpeed dongle.
pub const BLACKWIDOW_V3_MINI_DONGLE_PID: u16 = 0x0271;
/// PID of the Kraken V4 Pro OLED hub, present whenever the headset is plugged in.
pub const KRAKEN_V4_PRO_HUB_PID: u16 = 0x0568;

/// The percentage shown for a battery state: the carried level, 100 when
/// full, 0 when unknown.
pub open spec fn spec_state_pct(state: BatteryState) -> u8 {
    match state {
        BatteryState::Charging(n) | BatteryState::Discharging(n) => n,
        BatteryState::Full => 100,
        BatteryState::Unknown => 0,
    }
}

/// Extracts the percentage from any `BatteryState` variant.
pub fn state_pct(state: &BatteryState) -> (r: u8)
    ensures
        r == spec_state_pct(*state),
{
    match state {
        BatteryState::Charging(n) | BatteryState::Discharging(n) => *n,
        BatteryState::Full => 100,
        BatteryState::Unknown => 0,
    }
}

/// The (percentage, charging) pair the tray shows for a battery state.
pub fn battery_to_pct(state: &BatteryState) -> (r: (u8, bool))
    ensures
        r == (spec_state_pct(*state), match *state {
            BatteryState::Charging(_) | BatteryState::Full => true,
            _ => false,
        }),
{
    match state {
        BatteryState::Charging(pct) => (*pct, true),
        BatteryState::Discharging(pct) => (*pct, false),
        BatteryState::Full => (100, true),
        BatteryState::Unknown => (0, false),
    }
}

/// The battery state for a level and a charging flag: full when charging at
/// 100 % or more, charging or discharging at that level otherwise.
pub open spec fn spec_resolve_battery(percent: u8, is_charging: bool) -> BatteryState {
    if is_charging && percent >= 100 {
        BatteryState::Full
    } else if is_charging {
        BatteryState::Charging(percent)
    } else {
        BatteryState::Discharging(percent)
    }
}

/// Combines a battery level and a charging flag into a battery state.
pub fn resolve_battery_state(percent: u8, is_charging: bool) -> (s: BatteryState)
    ensures
        s == spec_resolve_battery(percent, is_charging),
{
    if is_charging && percent >= 100 {
        BatteryState::Full
    } else if is_charging {
        BatteryState::Charging(percent)
    } else {
        BatteryState::Discharging(percent)
    }
}

// ── Detection ────────────────────────────────────────────────────────────────

/// The first candidate PID (in candidate order) attached with the Razer
/// vendor ID, given the (vendor, product) IDs of the attached USB devices.
pub open spec fn spec_first_connected(candidates: Seq<u16>, attached: Seq<(u16, u16)>) -> Option<u16>
    decreases candidates.len(),
{
    if candidates.len() == 0 {
        None
    } else if attached.contains((RAZER_VID, candidates[0])) {
        Some(candidates[0])
    } else {
        spec_first_connected(candidates.drop_first(), attached)
    }
}

/// Picks the first candidate PID that is attached with the Razer vendor ID.
pub fn first_connected_pid(candidates: &[u16], attached: &[(u16, u16)]) -> (r: Option<u16>)
    ensures
        r == spec_first_connected(candidates@, attached@),
{
    let mut i: usize = 0;
    assert(candidates@.skip(0) =~= candidates@);
    while i < candidates.len()
        invariant
            i <= candidates@.len(),
            spec_first_connected(candidates@, attached@) == spec_first_connected(
                candidates@.skip(i as int),
                attached@,
            ),
        decreases candidates@.len() - i,
    {
        let pid = candidates[i];
        let mut found = false;
        let mut j: usize = 0;
        while j < attached.len()
            invariant
                j <= attached@.len(),
                found == attached@.take(j as int).contains((RAZER_VID, pid)),
            decreases attached@.len() - j,
        {
            proof {
                let s = attached@.take(j as int);
                let s2 = attached@.take(j + 1);
                assert(s2 =~= s.push(attached@[j as int]));
                if s2.contains((RAZER_VID, pid)) {
                    let w = choose|w: int| 0 <= w < s2.len() && s2[w] == (RAZER_VID, pid);
                    if w < s.len() {
                        assert(s[w] == s2[w]);
                    }
                }
                if s.contains((RAZER_VID, pid)) {
                    let w = choose|w: int| 0 <= w < s.len() && s[w] == (RAZER_VID, pid);
                    assert(s2[w] == s[w]);
                }
                if attached@[j as int] == (RAZER_VID, pid) {
                    assert(s2[j as int] == (RAZER_VID, pid));
                }
            }
            if attached[j].0 == RAZER_VID && attached[j].1 == pid {
                found = true;
            }
            j = j + 1;
        }
        proof {
            assert(attached@.take(j as int) =~= attached@);
            assert(candidates@.skip(i as int)[0] == pid);
            assert(candidates@.skip(i as int).drop_first() =~= candidates@.skip(i + 1));
        }
        if found {
            return Some(pid);
        }
        i = i + 1;
    }
    None
}

/// A device found on the USB bus: its PID, product, connection type and name.
pub struct DetectedDevice {
    pub pid: u16,
    pub product_id: RazerProductId,
    pub connection_type: ConnectionType,
    pub name: String,
}

/// The Cobra Pro PIDs, dongle first: with both plugged in, the dongle is the
/// active connection and the cable only charges.
pub fn cobra_pro_candidates() -> (v: Vec<u16>)
    ensures
        v@ == seq![COBRA_PRO_DONGLE_PID, COBRA_PRO_WIRED_PID],
{
    let mut v: Vec<u16> = Vec::new();
    v.push(COBRA_PRO_DONGLE_PID);
    v.push(COBRA_PRO_WIRED_PID);
    v
}

/// The BlackWidow V3 Mini HyperSpeed PIDs, dongle first.
pub fn blackwidow_v3_mini_candidates() -> (v: Vec<u16>)
    ensures
        v@ == seq![BLACKWIDOW_V3_MINI_DONGLE_PID, BLACKWIDOW_V3_MINI_WIRED_PID],
{
    let mut v: Vec<u16> = Vec::new();
    v.push(BLACKWIDOW_V3_MINI_DONGLE_PID);
    v.push(BLACKWIDOW_V3_MINI_WIRED_PID);
    v
}

/// The display name of a PID: the registry's name, or `fallback` when the
/// PID is not in the registry.
pub open spec fn spec_profile_name(pid: u16, fallback: Seq<char>) -> Seq<char> {
    match spec_profile(pid) {
        Some(p) => p.name,
        None => fallback,
    }
}

fn profile_name_or(pid: u16, fallback: &str) -> (s: String)
    ensures
        s@ == spec_profile_name(pid, fallback@),
{
    match get_device_profile(pid) {
        Some(p) => p.name,
        None => fallback.to_owned(),
    }
}

/// Resolves the Cobra Pro from the PID found on the bus (see
/// [`cobra_pro_candidates`]): the dongle PID means a dongle connection, the
/// wired PID a wired one; with neither found the mouse is assumed to be on
/// Bluetooth (not enumerable over USB) under the dongle PID. The product is
/// the wired Cobra Pro for the wired PID, the wireless one otherwise.
pub fn resolve_cobra_pro(found: Option<u16>) -> (d: DetectedDevice)
    ensures
        (d.pid, d.connection_type) == (match found {
            Some(p) => if p == COBRA_PRO_DONGLE_PID {
                (p, ConnectionType::Dongle)
            } else if p == COBRA_PRO_WIRED_PID {
                (p, ConnectionType::Wired)
            } else {
                (COBRA_PRO_DONGLE_PID, ConnectionType::Bluetooth)
            },
            None => (COBRA_PRO_DONGLE_PID, ConnectionType::Bluetooth),
        }),
        d.product_id == (if d.pid == COBRA_PRO_WIRED_PID {
            RazerProductId::CobraProWired
        } else {
            RazerProductId::CobraProWireless
        }),
        d.name@ == spec_profile_name(d.pid, "Razer Cobra Pro"@),
{
    let (pid, connection_type) = match found {
        Some(p) => if p == COBRA_PRO_DONGLE_PID {
            (p, ConnectionType::Dongle)
        } else if p == COBRA_PRO_WIRED_PID {
            (p, ConnectionType::Wired)
        } else {
            (COBRA_PRO_DONGLE_PID, ConnectionType::Bluetooth)
        },
        None => (COBRA_PRO_DONGLE_PID, ConnectionType::Bluetooth),
    };
    let product_id = if pid == COBRA_PRO_WIRED_PID {
        RazerProductId::CobraProWired
    } else {
        RazerProductId::CobraProWireless
    };
    let name = profile_name_or(pid, "Razer Cobra Pro");
    DetectedDevice { pid, product_id, connection_type, name }
}

/// Resolves the BlackWidow V3 Mini HyperSpeed from the PID found on the bus:
/// `None` when neither of its PIDs was found; the dongle PID means a dongle
/// connection, the wired PID a wired one.
pub fn resolve_blackwidow_v3_mini(found: Option<u16>) -> (r: Option<DetectedDevice>)
    ensures
        match r {
            None => !(found == Some(BLACKWIDOW_V3_MINI_DONGLE_PID) || found == Some(
                BLACKWIDOW_V3_MINI_WIRED_PID,
            )),
            Some(d) => {
                &&& found == Some(d.pid)
                &&& (d.pid == BLACKWIDOW_V3_MINI_DONGLE_PID || d.pid == BLACKWIDOW_V3_MINI_WIRED_PID)
                &&& d.connection_type == (if d.pid == BLACKWIDOW_V3_MINI_WIRED_PID {
                    ConnectionType::Wired
                } else {
                    ConnectionType::Dongle
                })
                &&& d.product_id == (if d.pid == BLACKWIDOW_V3_MINI_WIRED_PID {
                    RazerProductId::BlackWidowV3MiniHyperSpeedWired
                } else {
                    RazerProductId::BlackWidowV3MiniHyperSpeedWireless
                })
                &&& d.name@ == spec_profile_name(d.pid, "Razer BlackWidow V3 Mini HyperSpeed"@)
            },
        },
{
    let pid = match found {
        Some(p) => p,
        None => return None,
    };
    let (connection_type, product_id) = if pid == BLACKWIDOW_V3_MINI_DONGLE_PID {
        (ConnectionType::Dongle, RazerProductId::BlackWidowV3MiniHyperSpeedWireless)
    } else if pid == BLACKWIDOW_V3_MINI_WIRED_PID {
        (ConnectionType::Wired, RazerProductId::BlackWidowV3MiniHyperSpeedWired)
    } else {
        return None;
    };
    let name = profile_name_or(pid, "Razer BlackWidow V3 Mini HyperSpeed");
    Some(DetectedDevice { pid, product_id, connection_type, name })
}

/// The device ID under which a headset hub is registered:
/// `"kraken-v4-pro-"` and the PID as four lower-case hex digits.
pub fn headset_device_id(pid: u16) -> (s: String)
    ensures
        s@ == "kraken-v4-pro-"@ + hex_fixed(pid as nat, 4, false),
{
    let mut s = "kraken-v4-pro-".to_owned();
    append_hex(&mut s, pid as u64, 4, false);
    s
}

/// How the keyboard's battery is queried: over the dongle with the wireless
/// transaction ID and the wired interface as companion; over the cable with
/// the wired transaction ID and no companion.
pub fn keyboard_battery_source(connection: ConnectionType) -> (r: (u8, Option<u16>))
    ensures
        r == (if connection == ConnectionType::Dongle {
            (TRANSACTION_ID_KEYBOARD_WIRELESS, Some(BLACKWIDOW_V3_MINI_WIRED_PID))
        } else {
            (TRANSACTION_ID_COBRA, None)
        }),
{
    if connection == ConnectionType::Dongle {
        (TRANSACTION_ID_KEYBOARD_WIRELESS, Some(BLACKWIDOW_V3_MINI_WIRED_PID))
    } else {
        (TRANSACTION_ID_COBRA, None)
    }
}

// ── Battery polling ──────────────────────────────────────────────────────────

/// How a reading taken right after switching to the cable is used: the
/// cable always charges, so a non-zero level is reported as charging (or
/// full); a zero level or a failed read asks for another attempt (`None`).
pub open spec fn spec_wired_reading(reading: Option<BatteryState>) -> Option<BatteryState> {
    match reading {
        Some(BatteryState::Full) => Some(BatteryState::Full),
        Some(BatteryState::Charging(n)) => if n > 0 {
            Some(BatteryState::Charging(n))
        } else {
            None
        },
        Some(BatteryState::Discharging(n)) => if n > 0 {
            Some(BatteryState::Charging(n))
        } else {
            None
        },
        _ => None,
    }
}

/// Classifies a battery reading taken on a fresh wired connection.
pub fn wired_reading(reading: Option<BatteryState>) -> (r: Option<BatteryState>)
    ensures
        r == spec_wired_reading(reading),
{
    match reading {
        Some(BatteryState::Full) => Some(BatteryState::Full),
        Some(BatteryState::Charging(n)) => if n > 0 {
            Some(BatteryState::Charging(n))
        } else {
            None
        },
        Some(BatteryState::Discharging(n)) => if n > 0 {
            Some(BatteryState::Charging(n))
        } else {
            None
        },
        _ => None,
    }
}

/// When every wired attempt failed, the state to report from the last known
/// one: charging at its level (full at 100 %), or nothing when no level is
/// known.
pub fn wired_fallback(last: &BatteryState) -> (r: Option<BatteryState>)
    ensures
        r == (if spec_state_pct(*last) == 0 {
            None
        } else if spec_state_pct(*last) >= 100 {
            Some(BatteryState::Full)
        } else {
            Some(BatteryState::Charging(spec_state_pct(*last)))
        }),
{
    let pct = state_pct(last);
    if pct > 0 {
        Some(if pct >= 100 {
            BatteryState::Full
        } else {
            BatteryState::Charging(pct)
        })
    } else {
        None
    }
}

/// A 0 % reading after a healthy level (above 5 %) is a bad USB read: a real
/// battery cannot drain that fast between two readings.
pub open spec fn spec_suspicious_zero(new_state: BatteryState, last_pct: u8) -> bool {
    spec_state_pct(new_state) == 0 && last_pct > 5
}

/// Whether a reading must be discarded as a bad USB read.
pub fn is_suspicious_zero(new_state: &BatteryState, last_pct: u8) -> (r: bool)
    ensures
        r == spec_suspicious_zero(*new_state, last_pct),
{
    state_pct(new_state) == 0 && last_pct > 5
}

/// What the periodic battery poll does with a reading.
#[derive(Debug, Clone, Copy, PartialEq, Eq, Structural)]
pub enum PollDecision {
    /// Bad read: ignore it.
    Discard,
    /// Refresh the tray only; the state did not change.
    TrayOnly,
    /// Refresh the tray, record the state and emit `BatteryChanged`.
    TrayAndSignal,
}

/// The poll decision: discard a suspicious zero (measured against the last
/// emitted state, 0 % when none), refresh only the tray when the state equals
/// the last emitted one, otherwise refresh the tray and signal.
pub open spec fn spec_poll_decision(last_emitted: Option<BatteryState>, new_state: BatteryState) -> PollDecision {
    let last_pct = match last_emitted {
        Some(s) => spec_state_pct(s),
        None => 0,
    };
    if spec_suspicious_zero(new_state, last_pct) {
        PollDecision::Discard
    } else if last_emitted == Some(new_state) {
        PollDecision::TrayOnly
    } else {
        PollDecision::TrayAndSignal
    }
}

/// Decides what the periodic battery poll does with a new reading.
pub fn battery_poll_decision(last_emitted: &Option<BatteryState>, new_state: &BatteryState) -> (r:
    PollDecision)
    ensures
        r == spec_poll_decision(*last_emitted, *new_state),
{
    let last_pct = match last_emitted {
        Some(s) => state_pct(s),
        None => 0,
    };
    if is_suspicious_zero(new_state, last_pct) {
        PollDecision::Discard
    } else if match last_emitted {
        Some(s) => *s == *new_state,
        None => false,
    } {
        PollDecision::TrayOnly
    } else {
        PollDecision::TrayAndSignal
    }
}

/// What the connection watcher saw change between two scans.
#[derive(Debug, Clone, Copy, PartialEq, Eq, Structural)]
pub enum WatchChange {
    /// Nothing changed.
    Unchanged,
    /// Only the charging cable appeared or disappeared (dongle still active).
    CableOnly,
    /// The active PID or connection type changed.
    Connection,
}

/// Compares two scans of the Cobra Pro connection: (PID, connection type,
/// cable present) before and after.
pub fn watch_change(
    old_pid: u16,
    old_conn: ConnectionType,
    old_cable: bool,
    new_pid: u16,
    new_conn: ConnectionType,
    new_cable: bool,
) -> (r: WatchChange)
    ensures
        r == (if new_pid != old_pid || new_conn != old_conn {
            WatchChange::Connection
        } else if new_cable != old_cable {
            WatchChange::CableOnly
        } else {
            WatchChange::Unchanged
        }),
{
    if new_pid != old_pid || new_conn != old_conn {
        WatchChange::Connection
    } else if new_cable != old_cable {
        WatchChange::CableOnly
    } else {
        WatchChange::Unchanged
    }
}

// ── Laws ─────────────────────────────────────────────────────────────────────

/// A state built from a level and a charging flag gives both back: the tray
/// shows the same charging flag, and the same level (100 when full); the
/// state is `Full` exactly when charging at 100 % or more.
pub proof fn lemma_resolved_state_roundtrip(percent: u8, is_charging: bool)
    ensures
        ({
            let s = spec_resolve_battery(percent, is_charging);
            &&& (s == BatteryState::Full <==> (is_charging && percent >= 100))
            &&& spec_state_pct(s) == (if s == BatteryState::Full {
                100
            } else {
                percent
            })
            &&& (match s {
                BatteryState::Charging(_) | BatteryState::Full => true,
                _ => false,
            }) == is_charging
        }),
{
}

/// The periodic poll signals only real changes: a reading equal to the last
/// emitted state never emits `BatteryChanged`, and a 0 % reading after a
/// healthy one (above 5 %) is never shown or recorded.
pub proof fn lemma_poll_signals_only_changes(last: BatteryState, new_state: BatteryState)
    ensures
        new_state == last ==> spec_poll_decision(Some(last), new_state) != PollDecision::TrayAndSignal,
        spec_state_pct(new_state) == 0 && spec_state_pct(last) > 5 ==> spec_poll_decision(
            Some(last),
            new_state,
        ) == PollDecision::Discard,
{
}

/// The periodic poll signals every real change: with nothing emitted yet any
/// reading is signalled; a reading that differs from the last emitted state
/// and is not a 0 % reading after one above 5 % is signalled; the tray alone
/// is refreshed only for a reading equal to the last emitted state; and once
/// a reading has been signalled, the same reading again is not.
pub proof fn lemma_poll_signals_every_change(last: Option<BatteryState>, new_state: BatteryState)
    ensures
        last is None ==> spec_poll_decision(last, new_state) == PollDecision::TrayAndSignal,
        (last matches Some(s) && s != new_state && !(spec_state_pct(new_state) == 0
            && spec_state_pct(s) > 5)) ==> spec_poll_decision(last, new_state)
            == PollDecision::TrayAndSignal,
        spec_poll_decision(last, new_state) == PollDecision::TrayOnly ==> last == Some(new_state),
        spec_poll_decision(last, new_state) == PollDecision::TrayAndSignal ==> spec_poll_decision(
            Some(new_state),
            new_state,
        ) == PollDecision::TrayOnly,
{
}

} // verus!
