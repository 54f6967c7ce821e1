//! Shared device model: product identifiers, lighting effects, battery and
//! connection states, and the device record exposed over D-Bus.

use vstd::prelude::*;

use crate::registry::DeviceCapability;

verus! {

/// All known Razer wireless/wired device product IDs (VID 0x1532).
#[derive(Debug, Clone, Copy, PartialEq, Eq, Structural)]
pub enum RazerProductId {
    // Mice
    DeathAdderV2Pro,
    MambaWireless,
    ViperUltimateWired,
    ViperUltimateWireless,
    BasiliskUltimate,
    NagaPro,
    CobraProWired,
    CobraProWireless,
    // Headsets
    KrakenUltimate,
    KrakenKittyV2,
    KrakenV4Pro,
    // Keyboards
    BlackWidowV3Pro,
    BlackWidowV3MiniHyperSpeedWired,
    BlackWidowV3MiniHyperSpeedWireless,
    /// Catch-all for devices not yet enumerated.
    Unknown(u16),
}

/// A lighting effect to apply to a device's RGB zones.
#[derive(Debug, Clone, Copy, PartialEq, Eq)]
pub enum LightingEffect {
    /// All LEDs set to a single static RGB colour.
    Static([u8; 3]),
    /// Single-colour pulsing breathing effect.
    Breathing([u8; 3]),
    /// Automatic full-spectrum colour cycling.
    Spectrum,
}

/// Persistent user preferences for a single device.
#[derive(Debug, Clone, Copy)]
pub struct DeviceSettings {
    pub lighting: Option<LightingEffect>,
    pub dpi: Option<u16>,
}

/// A sensor configuration command for a mouse.
#[derive(Debug, Clone, Copy, PartialEq, Eq, Structural)]
pub enum SensorCommand {
    /// Set the X and Y DPI independently.
    SetDpi { x: u16, y: u16 },
}

/// Audio / haptic configuration commands for headset devices.
#[derive(Debug, Clone, Copy, PartialEq, Eq, Structural)]
pub enum AudioCommand {
    /// Set sidetone volume (0 silent – 100 full).
    SetSidetone { level: u8 },
    /// Set haptic feedback intensity (0 disabled – 100 maximum).
    SetHapticIntensity { level: u8 },
}

/// The battery / charging state of a device.
///
/// `Charging` and `Discharging` carry the charge level (0–100); `Full` is
/// reported on the charger at full charge; `Unknown` when the level could not
/// be determined.
#[derive(Debug, Clone, Copy, PartialEq, Eq, Structural)]
pub enum BatteryState {
    Charging(u8),
    Discharging(u8),
    Full,
    Unknown,
}

/// How the device is physically connected to the host.
#[derive(Debug, Clone, Copy, PartialEq, Eq, Structural)]
pub enum ConnectionType {
    Wired,
    Dongle,
    Bluetooth,
}

/// A Razer device as represented on the D-Bus interface.
#[derive(Debug, Clone)]
pub struct RazerDevice {
    pub name: String,
    pub product_id: RazerProductId,
    pub battery_state: BatteryState,
    pub capabilities: Vec<DeviceCapability>,
    pub connection_type: ConnectionType,
}

/// The USB product ID of each known product (the vendor ID is always 0x1532).
pub open spec fn spec_usb_pid(p: RazerProductId) -> u16 {
    match p {
        RazerProductId::DeathAdderV2Pro => 0x007C,
        RazerProductId::MambaWireless => 0x0073,
        RazerProductId::ViperUltimateWired => 0x007A,
        RazerProductId::ViperUltimateWireless => 0x007B,
        RazerProductId::BasiliskUltimate => 0x0085,
        RazerProductId::NagaPro => 0x008F,
        RazerProductId::CobraProWired => 0x00AF,
        RazerProductId::CobraProWireless => 0x00B0,
        RazerProductId::KrakenUltimate => 0x0527,
        RazerProductId::KrakenKittyV2 => 0x0560,
        RazerProductId::KrakenV4Pro => 0x0568,
        RazerProductId::BlackWidowV3Pro => 0x025A,
        RazerProductId::BlackWidowV3MiniHyperSpeedWired => 0x0258,
        RazerProductId::BlackWidowV3MiniHyperSpeedWireless => 0x0271,
        RazerProductId::Unknown(pid) => pid,
    }
}

/// The charge level carried by a battery state, if any.
pub open spec fn spec_level(s: BatteryState) -> Option<u8> {
    match s {
        BatteryState::Charging(l) | BatteryState::Discharging(l) => Some(l),
        BatteryState::Full | BatteryState::Unknown => None,
    }
}

impl RazerProductId {
    /// Returns the USB product ID (PID) for this device (VID is always `0x1532`).
    pub fn usb_pid(&self) -> (pid: u16)
        ensures
            pid == spec_usb_pid(*self),
    {
        match self {
            RazerProductId::DeathAdderV2Pro => 0x007C,
            RazerProductId::MambaWireless => 0x0073,
            RazerProductId::ViperUltimateWired => 0x007A,
            RazerProductId::ViperUltimateWireless => 0x007B,
            RazerProductId::BasiliskUltimate => 0x0085,
            RazerProductId::NagaPro => 0x008F,
            RazerProductId::CobraProWired => 0x00AF,
            RazerProductId::CobraProWireless => 0x00B0,
            RazerProductId::KrakenUltimate => 0x0527,
            RazerProductId::KrakenKittyV2 => 0x0560,
            RazerProductId::KrakenV4Pro => 0x0568,
            RazerProductId::BlackWidowV3Pro => 0x025A,
            RazerProductId::BlackWidowV3MiniHyperSpeedWired => 0x0258,
            RazerProductId::BlackWidowV3MiniHyperSpeedWireless => 0x0271,
            RazerProductId::Unknown(pid) => *pid,
        }
    }
}

impl BatteryState {
    /// Returns the charge level percentage if one is available.
    pub fn level(&self) -> (r: Option<u8>)
        ensures
            r == spec_level(*self),
    {
        match self {
            BatteryState::Charging(lvl) | BatteryState::Discharging(lvl) => Some(*lvl),
            BatteryState::Full | BatteryState::Unknown => None,
        }
    }
}

/// The label shown in the UI for each connection type.
pub open spec fn spec_connection_label(c: ConnectionType) -> Seq<char> {
    match c {
        ConnectionType::Wired => seq!['W', 'i', 'r', 'e', 'd'],
        ConnectionType::Dongle => seq!['U', 'S', 'B', ' ', 'D', 'o', 'n', 'g', 'l', 'e'],
        ConnectionType::Bluetooth => seq!['B', 'l', 'u', 'e', 't', 'o', 'o', 't', 'h'],
    }
}

impl ConnectionType {
    /// Human-readable label shown in the UI.
    pub fn label(&self) -> (s: &'static str)
        ensures
            s@ == spec_connection_label(*self),
    {
        match self {
            ConnectionType::Wired => {
                let s = "Wired";
                proof { reveal_strlit("Wired"); }
                s
            },
            ConnectionType::Dongle => {
                let s = "USB Dongle";
                proof { reveal_strlit("USB Dongle"); }
                s
            },
            ConnectionType::Bluetooth => {
                let s = "Bluetooth";
                proof { reveal_strlit("Bluetooth"); }
                s
            },
        }
    }
}

/// `Bluetooth` is the default connection: it is what the daemon assumes when
/// neither the wired nor the dongle PID is on the USB bus.
impl Default for ConnectionType {
    fn default() -> (c: Self)
        ensures
            c == ConnectionType::Bluetooth,
    {
        ConnectionType::Bluetooth
    }
}

/// No lighting and no DPI preference.
impl Default for DeviceSettings {
    fn default() -> (s: Self)
        ensures
            s.lighting is None,
            s.dpi is None,
    {
        DeviceSettings { lighting: None, dpi: None }
    }
}

} // verus!
