//! Static registry of known Razer devices, keyed by USB product ID.

use vstd::prelude::*;

use crate::protocol::LightingEffect;

verus! {

/// The class of peripheral.
#[derive(Debug, Clone, Copy, PartialEq, Eq, Structural)]
pub enum DeviceType {
    Mouse,
    Keyboard,
    Audio,
}

/// Logical capabilities a device exposes beyond basic connectivity.
#[derive(Debug, Clone, Copy, PartialEq, Eq)]
pub enum DeviceCapability {
    /// Device supports at least one `LightingEffect`.
    Lighting(LightingEffect),
    /// Device can report battery level and charging status via USB.
    BatteryReporting,
    /// Device supports DPI (sensor resolution) configuration via USB.
    DpiControl,
    /// Device supports sidetone volume control (headsets).
    Sidetone,
    /// Device has a microphone that supports mute toggle.
    Microphone,
    /// Device supports haptic feedback enable/intensity (headsets).
    HapticFeedback,
    /// Device supports THX Spatial Audio toggle.
    ThxSpatialAudio,
}

/// Static profile for a known Razer device sourced from the USB PID registry.
#[derive(Debug, Clone)]
pub struct DeviceProfile {
    /// Human-readable display name.
    pub name: String,
    /// USB product ID (Razer VID is always `0x1532`).
    pub product_id: u16,
    /// The class of device.
    pub device_type: DeviceType,
    /// Capabilities supported by this device.
    pub capabilities: Vec<DeviceCapability>,
    /// USB interface number to claim for proprietary HID control transfers.
    pub control_interface: u8,
}

/// Mathematical view of a [`DeviceProfile`].
pub struct ProfileView {
    pub name: Seq<char>,
    pub product_id: u16,
    pub device_type: DeviceType,
    pub capabilities: Seq<DeviceCapability>,
    pub control_interface: u8,
}

impl View for DeviceProfile {
    type V = ProfileView;

    open spec fn view(&self) -> ProfileView {
        ProfileView {
            name: self.name@,
            product_id: self.product_id,
            device_type: self.device_type,
            capabilities: self.capabilities@,
            control_interface: self.control_interface,
        }
    }
}

/// One registry row: display name, device class, whether the device reports
/// its battery over USB, and whether it takes DPI commands.
pub type RegistryRow = (Seq<char>, DeviceType, bool, bool);

/// The registry table: the row for each known product ID.
pub open spec fn registry_entry(product_id: u16) -> Option<RegistryRow> {
    match product_id {
        // ── Abyssus family
        0x0042 => Some(("Razer Abyssus"@, DeviceType::Mouse, false, false)),
        0x0020 => Some(("Razer Abyssus 1800"@, DeviceType::Mouse, false, false)),
        0x005E => Some(("Razer Abyssus 2000"@, DeviceType::Mouse, false, false)),
        0x006B => Some(("Razer Abyssus Essential"@, DeviceType::Mouse, false, false)),
        0x005B => Some(("Razer Abyssus V2"@, DeviceType::Mouse, false, false)),
        0x006A => Some(("Razer Abyssus Elite D.Va Edition"@, DeviceType::Mouse, false, false)),
        // ── Atheris family
        0x0062 => Some(("Razer Atheris (Receiver)"@, DeviceType::Mouse, true, false)),
        // ── Basilisk family
        0x0064 => Some(("Razer Basilisk"@, DeviceType::Mouse, false, false)),
        0x0065 => Some(("Razer Basilisk Essential"@, DeviceType::Mouse, false, false)),
        0x0083 => Some(("Razer Basilisk X HyperSpeed"@, DeviceType::Mouse, true, false)),
        0x0085 => Some(("Razer Basilisk V2"@, DeviceType::Mouse, false, false)),
        0x0086 => Some(("Razer Basilisk Ultimate (Wired)"@, DeviceType::Mouse, false, false)),
        0x0088 => Some(("Razer Basilisk Ultimate (Receiver)"@, DeviceType::Mouse, true, false)),
        0x0099 => Some(("Razer Basilisk V3"@, DeviceType::Mouse, false, false)),
        0x00AA => Some(("Razer Basilisk V3 Pro (Wired)"@, DeviceType::Mouse, false, false)),
        0x00AB => Some(("Razer Basilisk V3 Pro (Wireless)"@, DeviceType::Mouse, true, false)),
        0x00B9 => Some(("Razer Basilisk V3 X HyperSpeed"@, DeviceType::Mouse, true, false)),
        0x00CB => Some(("Razer Basilisk V3 35K"@, DeviceType::Mouse, false, false)),
        0x00CC => Some(("Razer Basilisk V3 Pro 35K (Wired)"@, DeviceType::Mouse, false, false)),
        0x00CD => Some(("Razer Basilisk V3 Pro 35K (Wireless)"@, DeviceType::Mouse, true, false)),
        0x00D6 => Some(("Razer Basilisk V3 Pro 35K Phantom Green (Wired)"@, DeviceType::Mouse, false, false)),
        0x00D7 => Some(("Razer Basilisk V3 Pro 35K Phantom Green (Wireless)"@, DeviceType::Mouse, true, false)),
        // ── Cobra family
        0x00A3 => Some(("Razer Cobra"@, DeviceType::Mouse, false, false)),
        0x00AF => Some(("Razer Cobra Pro (Wired)"@, DeviceType::Mouse, false, true)),
        0x00B0 => Some(("Razer Cobra Pro (Wireless)"@, DeviceType::Mouse, true, true)),
        // ── DeathAdder family
        0x0016 => Some(("Razer DeathAdder 3.5G"@, DeviceType::Mouse, false, false)),
        0x0029 => Some(("Razer DeathAdder 3.5G (Black)"@, DeviceType::Mouse, false, false)),
        0x0037 => Some(("Razer DeathAdder 2013"@, DeviceType::Mouse, false, false)),
        0x0038 => Some(("Razer DeathAdder 1800"@, DeviceType::Mouse, false, false)),
        0x0043 => Some(("Razer DeathAdder Chroma"@, DeviceType::Mouse, false, false)),
        0x004F => Some(("Razer DeathAdder 2000"@, DeviceType::Mouse, false, false)),
        0x0054 => Some(("Razer DeathAdder 3500"@, DeviceType::Mouse, false, false)),
        0x005C => Some(("Razer DeathAdder Elite"@, DeviceType::Mouse, false, false)),
        0x006E => Some(("Razer DeathAdder Essential"@, DeviceType::Mouse, false, false)),
        0x0071 => Some(("Razer DeathAdder Essential (White Edition)"@, DeviceType::Mouse, false, false)),
        0x0084 => Some(("Razer DeathAdder V2"@, DeviceType::Mouse, false, false)),
        0x008C => Some(("Razer DeathAdder V2 Mini"@, DeviceType::Mouse, false, false)),
        0x0098 => Some(("Razer DeathAdder Essential (2021)"@, DeviceType::Mouse, false, false)),
        0x009C => Some(("Razer DeathAdder V2 X HyperSpeed"@, DeviceType::Mouse, true, false)),
        0x00A1 => Some(("Razer DeathAdder V2 Lite"@, DeviceType::Mouse, false, false)),
        0x007C => Some(("Razer DeathAdder V2 Pro (Wired)"@, DeviceType::Mouse, false, false)),
        0x007D => Some(("Razer DeathAdder V2 Pro (Wireless)"@, DeviceType::Mouse, true, false)),
        0x00B2 => Some(("Razer DeathAdder V3"@, DeviceType::Mouse, false, false)),
        0x00B6 => Some(("Razer DeathAdder V3 Pro (Wired)"@, DeviceType::Mouse, false, false)),
        0x00B7 => Some(("Razer DeathAdder V3 Pro (Wireless)"@, DeviceType::Mouse, true, false)),
        0x00C2 => Some(("Razer DeathAdder V3 Pro (Wired, Alt)"@, DeviceType::Mouse, false, false)),
        0x00C3 => Some(("Razer DeathAdder V3 Pro (Wireless, Alt)"@, DeviceType::Mouse, true, false)),
        0x00C4 => Some(("Razer DeathAdder V3 HyperSpeed (Wired)"@, DeviceType::Mouse, false, false)),
        0x00C5 => Some(("Razer DeathAdder V3 HyperSpeed (Wireless)"@, DeviceType::Mouse, true, false)),
        0x00BE => Some(("Razer DeathAdder V4 Pro (Wired)"@, DeviceType::Mouse, false, false)),
        0x00BF => Some(("Razer DeathAdder V4 Pro (Wireless)"@, DeviceType::Mouse, true, false)),
        // ── Diamondback family
        0x004C => Some(("Razer Diamondback Chroma"@, DeviceType::Mouse, false, false)),
        // ── HyperPolling Dongle
        0x00B3 => Some(("Razer HyperPolling Wireless Dongle"@, DeviceType::Mouse, false, false)),
        // ── Imperator family
        0x002F => Some(("Razer Imperator"@, DeviceType::Mouse, false, false)),
        // ── Lancehead family
        0x0059 => Some(("Razer Lancehead (Wired)"@, DeviceType::Mouse, false, false)),
        0x005A => Some(("Razer Lancehead (Wireless)"@, DeviceType::Mouse, true, false)),
        0x0060 => Some(("Razer Lancehead Tournament Edition"@, DeviceType::Mouse, false, false)),
        0x0070 => Some(("Razer Lancehead Wireless (Wired)"@, DeviceType::Mouse, false, false)),
        0x006F => Some(("Razer Lancehead Wireless (Receiver)"@, DeviceType::Mouse, true, false)),
        // ── Mamba family
        0x0024 => Some(("Razer Mamba 2012 (Wired)"@, DeviceType::Mouse, false, false)),
        0x0025 => Some(("Razer Mamba 2012 (Wireless)"@, DeviceType::Mouse, true, false)),
        0x0044 => Some(("Razer Mamba Chroma (Wired)"@, DeviceType::Mouse, false, false)),
        0x0045 => Some(("Razer Mamba Chroma (Wireless)"@, DeviceType::Mouse, true, false)),
        0x0046 => Some(("Razer Mamba Tournament Edition"@, DeviceType::Mouse, false, false)),
        0x006C => Some(("Razer Mamba Elite"@, DeviceType::Mouse, false, false)),
        0x0072 => Some(("Razer Mamba Wireless (Receiver)"@, DeviceType::Mouse, true, false)),
        0x0073 => Some(("Razer Mamba Wireless (Wired)"@, DeviceType::Mouse, false, false)),
        // ── Naga family
        0x0015 => Some(("Razer Naga"@, DeviceType::Mouse, false, false)),
        0x001F => Some(("Razer Naga Epic"@, DeviceType::Mouse, false, false)),
        0x002E => Some(("Razer Naga 2012"@, DeviceType::Mouse, false, false)),
        0x0036 => Some(("Razer Naga Hex (Red)"@, DeviceType::Mouse, false, false)),
        0x0040 => Some(("Razer Naga 2014"@, DeviceType::Mouse, false, false)),
        0x0041 => Some(("Razer Naga Hex"@, DeviceType::Mouse, false, false)),
        0x003E => Some(("Razer Naga Epic Chroma (Wired)"@, DeviceType::Mouse, false, false)),
        0x003F => Some(("Razer Naga Epic Chroma (Wireless)"@, DeviceType::Mouse, true, false)),
        0x0050 => Some(("Razer Naga Hex V2"@, DeviceType::Mouse, false, false)),
        0x0053 => Some(("Razer Naga Chroma"@, DeviceType::Mouse, false, false)),
        0x0067 => Some(("Razer Naga Trinity"@, DeviceType::Mouse, false, false)),
        0x008D => Some(("Razer Naga Left-Handed 2020"@, DeviceType::Mouse, false, false)),
        0x008F => Some(("Razer Naga Pro (Wired)"@, DeviceType::Mouse, false, false)),
        0x0090 => Some(("Razer Naga Pro (Wireless)"@, DeviceType::Mouse, true, false)),
        0x0096 => Some(("Razer Naga X"@, DeviceType::Mouse, false, false)),
        0x00A7 => Some(("Razer Naga V2 Pro (Wired)"@, DeviceType::Mouse, false, false)),
        0x00A8 => Some(("Razer Naga V2 Pro (Wireless)"@, DeviceType::Mouse, true, false)),
        0x00B4 => Some(("Razer Naga V2 HyperSpeed (Receiver)"@, DeviceType::Mouse, true, false)),
        // ── Orochi family
        0x0013 => Some(("Razer Orochi 2011"@, DeviceType::Mouse, false, false)),
        0x0039 => Some(("Razer Orochi 2013"@, DeviceType::Mouse, false, false)),
        0x0048 => Some(("Razer Orochi (Wired)"@, DeviceType::Mouse, false, false)),
        0x0094 => Some(("Razer Orochi V2 (Receiver)"@, DeviceType::Mouse, true, false)),
        0x0095 => Some(("Razer Orochi V2 (Bluetooth)"@, DeviceType::Mouse, true, false)),
        // ── Ouroboros family
        0x0032 => Some(("Razer Ouroboros"@, DeviceType::Mouse, false, false)),
        // ── Pro Click family
        0x0077 => Some(("Razer Pro Click (Receiver)"@, DeviceType::Mouse, true, false)),
        0x0080 => Some(("Razer Pro Click (Wired)"@, DeviceType::Mouse, false, false)),
        0x009A => Some(("Razer Pro Click Mini (Receiver)"@, DeviceType::Mouse, true, false)),
        0x00C7 => Some(("Razer Pro Click V2 Vertical (Wired)"@, DeviceType::Mouse, false, false)),
        0x00C8 => Some(("Razer Pro Click V2 Vertical (Wireless)"@, DeviceType::Mouse, true, false)),
        0x00D0 => Some(("Razer Pro Click V2 (Wired)"@, DeviceType::Mouse, false, false)),
        0x00D1 => Some(("Razer Pro Click V2 (Wireless)"@, DeviceType::Mouse, true, false)),
        // ── Taipan family
        0x0034 => Some(("Razer Taipan"@, DeviceType::Mouse, false, false)),
        // ── Viper family
        0x0078 => Some(("Razer Viper"@, DeviceType::Mouse, false, false)),
        0x0091 => Some(("Razer Viper 8KHz"@, DeviceType::Mouse, false, false)),
        0x008A => Some(("Razer Viper Mini"@, DeviceType::Mouse, false, false)),
        0x009E => Some(("Razer Viper Mini SE (Wired)"@, DeviceType::Mouse, false, false)),
        0x009F => Some(("Razer Viper Mini SE (Wireless)"@, DeviceType::Mouse, true, false)),
        0x007A => Some(("Razer Viper Ultimate (Wired)"@, DeviceType::Mouse, false, false)),
        0x007B => Some(("Razer Viper Ultimate (Wireless)"@, DeviceType::Mouse, true, false)),
        0x00A5 => Some(("Razer Viper V2 Pro (Wired)"@, DeviceType::Mouse, false, false)),
        0x00A6 => Some(("Razer Viper V2 Pro (Wireless)"@, DeviceType::Mouse, true, false)),
        0x00B8 => Some(("Razer Viper V3 HyperSpeed"@, DeviceType::Mouse, true, false)),
        0x00C0 => Some(("Razer Viper V3 Pro (Wired)"@, DeviceType::Mouse, false, false)),
        0x00C1 => Some(("Razer Viper V3 Pro (Wireless)"@, DeviceType::Mouse, true, false)),
        // ── Anansi
        0x010F => Some(("Razer Anansi"@, DeviceType::Keyboard, false, false)),
        // ── BlackWidow family
        0x010D => Some(("Razer BlackWidow Ultimate 2012"@, DeviceType::Keyboard, false, false)),
        0x011A => Some(("Razer BlackWidow Ultimate 2013"@, DeviceType::Keyboard, false, false)),
        0x011B => Some(("Razer BlackWidow Stealth"@, DeviceType::Keyboard, false, false)),
        0x010E => Some(("Razer BlackWidow Stealth Edition"@, DeviceType::Keyboard, false, false)),
        0x011C => Some(("Razer BlackWidow Tournament Edition 2014"@, DeviceType::Keyboard, false, false)),
        0x0203 => Some(("Razer BlackWidow Chroma"@, DeviceType::Keyboard, false, false)),
        0x0209 => Some(("Razer BlackWidow Chroma Tournament Edition"@, DeviceType::Keyboard, false, false)),
        0x0211 => Some(("Razer BlackWidow Chroma (Overwatch)"@, DeviceType::Keyboard, false, false)),
        0x0214 => Some(("Razer BlackWidow Ultimate 2016"@, DeviceType::Keyboard, false, false)),
        0x0216 => Some(("Razer BlackWidow X Chroma"@, DeviceType::Keyboard, false, false)),
        0x0217 => Some(("Razer BlackWidow X Ultimate"@, DeviceType::Keyboard, false, false)),
        0x021A => Some(("Razer BlackWidow X Tournament Edition Chroma"@, DeviceType::Keyboard, false, false)),
        0x0221 => Some(("Razer BlackWidow Chroma V2"@, DeviceType::Keyboard, false, false)),
        0x0228 => Some(("Razer BlackWidow Elite"@, DeviceType::Keyboard, false, false)),
        0x0235 => Some(("Razer BlackWidow Lite"@, DeviceType::Keyboard, false, false)),
        0x0237 => Some(("Razer BlackWidow Essential"@, DeviceType::Keyboard, false, false)),
        0x0241 => Some(("Razer BlackWidow 2019"@, DeviceType::Keyboard, false, false)),
        0x024E => Some(("Razer BlackWidow V3"@, DeviceType::Keyboard, false, false)),
        0x025A => Some(("Razer BlackWidow V3 Pro (Wired)"@, DeviceType::Keyboard, false, false)),
        0x025C => Some(("Razer BlackWidow V3 Pro (Wireless)"@, DeviceType::Keyboard, true, false)),
        0x0258 => Some(("Razer BlackWidow V3 Mini HyperSpeed (Wired)"@, DeviceType::Keyboard, false, false)),
        0x0271 => Some(("Razer BlackWidow V3 Mini HyperSpeed (Wireless)"@, DeviceType::Keyboard, true, false)),
        0x0A24 => Some(("Razer BlackWidow V3 TKL"@, DeviceType::Keyboard, false, false)),
        0x0287 => Some(("Razer BlackWidow V4"@, DeviceType::Keyboard, false, false)),
        0x028D => Some(("Razer BlackWidow V4 Pro"@, DeviceType::Keyboard, false, false)),
        0x02A5 => Some(("Razer BlackWidow V4 75%"@, DeviceType::Keyboard, false, false)),
        0x0293 => Some(("Razer BlackWidow V4 X"@, DeviceType::Keyboard, false, false)),
        0x02B9 => Some(("Razer BlackWidow V4 Mini HyperSpeed (Wired)"@, DeviceType::Keyboard, false, false)),
        0x02BA => Some(("Razer BlackWidow V4 Mini HyperSpeed (Wireless)"@, DeviceType::Keyboard, true, false)),
        0x02D7 => Some(("Razer BlackWidow V4 TKL HyperSpeed (Wired)"@, DeviceType::Keyboard, false, false)),
        0x02D5 => Some(("Razer BlackWidow V4 TKL HyperSpeed (Wireless)"@, DeviceType::Keyboard, true, false)),
        // ── Cynosa family
        0x022A => Some(("Razer Cynosa Chroma"@, DeviceType::Keyboard, false, false)),
        0x022C => Some(("Razer Cynosa Chroma Pro"@, DeviceType::Keyboard, false, false)),
        0x023F => Some(("Razer Cynosa Lite"@, DeviceType::Keyboard, false, false)),
        0x025E => Some(("Razer Cynosa V2"@, DeviceType::Keyboard, false, false)),
        // ── DeathStalker family
        0x0202 => Some(("Razer DeathStalker Expert"@, DeviceType::Keyboard, false, false)),
        0x0118 => Some(("Razer DeathStalker Essential"@, DeviceType::Keyboard, false, false)),
        0x0204 => Some(("Razer DeathStalker Chroma"@, DeviceType::Keyboard, false, false)),
        0x0295 => Some(("Razer DeathStalker V2"@, DeviceType::Keyboard, false, false)),
        0x0292 => Some(("Razer DeathStalker V2 Pro (Wired)"@, DeviceType::Keyboard, false, false)),
        0x0290 => Some(("Razer DeathStalker V2 Pro (Wireless)"@, DeviceType::Keyboard, true, false)),
        0x0298 => Some(("Razer DeathStalker V2 Pro TKL (Wired)"@, DeviceType::Keyboard, false, false)),
        0x0296 => Some(("Razer DeathStalker V2 Pro TKL (Wireless)"@, DeviceType::Keyboard, true, false)),
        // ── Huntsman family
        0x0226 => Some(("Razer Huntsman Elite"@, DeviceType::Keyboard, false, false)),
        0x0227 => Some(("Razer Huntsman"@, DeviceType::Keyboard, false, false)),
        0x0243 => Some(("Razer Huntsman Tournament Edition"@, DeviceType::Keyboard, false, false)),
        0x0257 => Some(("Razer Huntsman Mini"@, DeviceType::Keyboard, false, false)),
        0x0269 => Some(("Razer Huntsman Mini JP"@, DeviceType::Keyboard, false, false)),
        0x0282 => Some(("Razer Huntsman Mini Analog"@, DeviceType::Keyboard, false, false)),
        0x026B => Some(("Razer Huntsman V2 Tenkeyless"@, DeviceType::Keyboard, false, false)),
        0x026C => Some(("Razer Huntsman V2"@, DeviceType::Keyboard, false, false)),
        0x0266 => Some(("Razer Huntsman V2 Analog"@, DeviceType::Keyboard, false, false)),
        0x02A6 => Some(("Razer Huntsman V3 Pro"@, DeviceType::Keyboard, false, false)),
        0x02A7 => Some(("Razer Huntsman V3 Pro TKL"@, DeviceType::Keyboard, false, false)),
        0x02B0 => Some(("Razer Huntsman V3 Pro Mini"@, DeviceType::Keyboard, false, false)),
        0x02CF => Some(("Razer Huntsman V3 Pro 8KHz"@, DeviceType::Keyboard, false, false)),
        // ── Nostromo / Tartarus / Orbweaver (macro pads)
        0x0111 => Some(("Razer Nostromo"@, DeviceType::Keyboard, false, false)),
        0x0201 => Some(("Razer Tartarus"@, DeviceType::Keyboard, false, false)),
        0x0208 => Some(("Razer Tartarus Chroma"@, DeviceType::Keyboard, false, false)),
        0x022B => Some(("Razer Tartarus V2"@, DeviceType::Keyboard, false, false)),
        0x0244 => Some(("Razer Tartarus Pro"@, DeviceType::Keyboard, false, false)),
        0x0113 => Some(("Razer Orbweaver"@, DeviceType::Keyboard, false, false)),
        0x0207 => Some(("Razer Orbweaver Chroma"@, DeviceType::Keyboard, false, false)),
        // ── Ornata family
        0x021F => Some(("Razer Ornata"@, DeviceType::Keyboard, false, false)),
        0x021E => Some(("Razer Ornata Chroma"@, DeviceType::Keyboard, false, false)),
        0x025D => Some(("Razer Ornata V2"@, DeviceType::Keyboard, false, false)),
        0x02A1 => Some(("Razer Ornata V3"@, DeviceType::Keyboard, false, false)),
        0x028F => Some(("Razer Ornata V3 (Alt)"@, DeviceType::Keyboard, false, false)),
        0x0294 => Some(("Razer Ornata V3 X"@, DeviceType::Keyboard, false, false)),
        0x02A2 => Some(("Razer Ornata V3 X (Alt)"@, DeviceType::Keyboard, false, false)),
        0x02A3 => Some(("Razer Ornata V3 Tenkeyless"@, DeviceType::Keyboard, false, false)),
        // ── Razer Blade laptop keyboards
        0x0205 => Some(("Razer Blade Stealth"@, DeviceType::Keyboard, false, false)),
        0x0220 => Some(("Razer Blade Stealth (Late 2016)"@, DeviceType::Keyboard, false, false)),
        0x022D => Some(("Razer Blade Stealth (Mid 2017)"@, DeviceType::Keyboard, false, false)),
        0x0232 => Some(("Razer Blade Stealth (Late 2017)"@, DeviceType::Keyboard, false, false)),
        0x0239 => Some(("Razer Blade Stealth (2019)"@, DeviceType::Keyboard, false, false)),
        0x024A => Some(("Razer Blade Stealth (Late 2019)"@, DeviceType::Keyboard, false, false)),
        0x0252 => Some(("Razer Blade Stealth (Early 2020)"@, DeviceType::Keyboard, false, false)),
        0x0259 => Some(("Razer Blade Stealth (Late 2020)"@, DeviceType::Keyboard, false, false)),
        0x020F => Some(("Razer Blade QHD"@, DeviceType::Keyboard, false, false)),
        0x0224 => Some(("Razer Blade (Late 2016)"@, DeviceType::Keyboard, false, false)),
        0x0210 => Some(("Razer Blade Pro (Late 2016)"@, DeviceType::Keyboard, false, false)),
        0x0225 => Some(("Razer Blade Pro (2017)"@, DeviceType::Keyboard, false, false)),
        0x022F => Some(("Razer Blade Pro (2017 Full HD)"@, DeviceType::Keyboard, false, false)),
        0x0233 => Some(("Razer Blade 15 (2018)"@, DeviceType::Keyboard, false, false)),
        0x0240 => Some(("Razer Blade 15 Mercury (2018)"@, DeviceType::Keyboard, false, false)),
        0x023B => Some(("Razer Blade 15 Base (2018)"@, DeviceType::Keyboard, false, false)),
        0x023A => Some(("Razer Blade 15 Advanced (2019)"@, DeviceType::Keyboard, false, false)),
        0x0245 => Some(("Razer Blade 15 Mercury (Mid 2019)"@, DeviceType::Keyboard, false, false)),
        0x0246 => Some(("Razer Blade 15 Base (2019)"@, DeviceType::Keyboard, false, false)),
        0x0253 => Some(("Razer Blade 15 Advanced (2020)"@, DeviceType::Keyboard, false, false)),
        0x0255 => Some(("Razer Blade 15 Base (Early 2020)"@, DeviceType::Keyboard, false, false)),
        0x0268 => Some(("Razer Blade 15 Base (Late 2020)"@, DeviceType::Keyboard, false, false)),
        0x0276 => Some(("Razer Blade 15 Advanced (2021)"@, DeviceType::Keyboard, false, false)),
        0x026D => Some(("Razer Blade 15 Advanced (Early 2021)"@, DeviceType::Keyboard, false, false)),
        0x026F => Some(("Razer Blade 15 Base (Early 2021)"@, DeviceType::Keyboard, false, false)),
        0x027A => Some(("Razer Blade 15 Base (Early 2022)"@, DeviceType::Keyboard, false, false)),
        0x028A => Some(("Razer Blade 15 Advanced (Early 2022)"@, DeviceType::Keyboard, false, false)),
        0x029E => Some(("Razer Blade 15 (2023)"@, DeviceType::Keyboard, false, false)),
        0x0234 => Some(("Razer Blade Pro (2019)"@, DeviceType::Keyboard, false, false)),
        0x024C => Some(("Razer Blade Pro (Late 2019)"@, DeviceType::Keyboard, false, false)),
        0x024B => Some(("Razer Blade Advanced (Late 2019)"@, DeviceType::Keyboard, false, false)),
        0x0256 => Some(("Razer Blade Pro (Early 2020)"@, DeviceType::Keyboard, false, false)),
        0x0279 => Some(("Razer Blade 17 Pro (2021)"@, DeviceType::Keyboard, false, false)),
        0x026E => Some(("Razer Blade 17 Pro (Early 2021)"@, DeviceType::Keyboard, false, false)),
        0x028B => Some(("Razer Blade 17 (2022)"@, DeviceType::Keyboard, false, false)),
        0x02A0 => Some(("Razer Blade 18 (2023)"@, DeviceType::Keyboard, false, false)),
        0x02B8 => Some(("Razer Blade 18 (2024)"@, DeviceType::Keyboard, false, false)),
        0x02C7 => Some(("Razer Blade 18 (2025)"@, DeviceType::Keyboard, false, false)),
        0x0270 => Some(("Razer Blade 14 (2021)"@, DeviceType::Keyboard, false, false)),
        0x028C => Some(("Razer Blade 14 (2022)"@, DeviceType::Keyboard, false, false)),
        0x029D => Some(("Razer Blade 14 (2023)"@, DeviceType::Keyboard, false, false)),
        0x02B6 => Some(("Razer Blade 14 (2024)"@, DeviceType::Keyboard, false, false)),
        0x02C5 => Some(("Razer Blade 14 (2025)"@, DeviceType::Keyboard, false, false)),
        0x029F => Some(("Razer Blade 16 (2023)"@, DeviceType::Keyboard, false, false)),
        0x02C6 => Some(("Razer Blade 16 (2025)"@, DeviceType::Keyboard, false, false)),
        0x024D => Some(("Razer Blade 15 Studio Edition (2019)"@, DeviceType::Keyboard, false, false)),
        0x026A => Some(("Razer Book (2020)"@, DeviceType::Keyboard, false, false)),
        // ── Audio / Headsets
        0x0501 => Some(("Razer Kraken 7.1"@, DeviceType::Audio, false, false)),
        0x0504 => Some(("Razer Kraken 7.1 Chroma"@, DeviceType::Audio, false, false)),
        0x0506 => Some(("Razer Kraken 7.1 (Alternate)"@, DeviceType::Audio, false, false)),
        0x0510 => Some(("Razer Kraken 7.1 V2"@, DeviceType::Audio, false, false)),
        0x0520 => Some(("Razer Kraken Tournament Edition"@, DeviceType::Audio, false, false)),
        0x0527 => Some(("Razer Kraken Ultimate"@, DeviceType::Audio, false, false)),
        0x0560 => Some(("Razer Kraken Kitty V2"@, DeviceType::Audio, false, false)),
        0x0567 => Some(("Razer Kraken V4 Pro (Receiver)"@, DeviceType::Audio, false, false)),
        0x0568 => Some(("Razer Kraken V4 Pro"@, DeviceType::Audio, false, false)),
        0x056c => Some(("Razer Kraken V4 Pro (Main)"@, DeviceType::Audio, false, false)),
        0x0F19 => Some(("Razer Kraken Kitty Edition"@, DeviceType::Audio, false, false)),
        _ => None,
    }
}

/// The capabilities advertised by a registry row: lighting for every device,
/// then battery reporting, DPI control, sidetone and microphone for audio
/// devices, and haptics and THX Spatial Audio for the Kraken V4 Pro family.
pub open spec fn spec_capabilities(
    product_id: u16,
    device_type: DeviceType,
    has_battery: bool,
    has_dpi: bool,
) -> Seq<DeviceCapability> {
    seq![DeviceCapability::Lighting(LightingEffect::Static([0u8, 0u8, 0u8]))]
        + (if has_battery { seq![DeviceCapability::BatteryReporting] } else { seq![] })
        + (if has_dpi { seq![DeviceCapability::DpiControl] } else { seq![] })
        + (if device_type == DeviceType::Audio {
            seq![DeviceCapability::Sidetone, DeviceCapability::Microphone]
        } else {
            seq![]
        })
        + (if is_kraken_v4_pro_family(product_id) {
            seq![DeviceCapability::HapticFeedback, DeviceCapability::ThxSpatialAudio]
        } else {
            seq![]
        })
}

/// The Kraken V4 Pro receiver (0x0567), hub (0x0568) and main device (0x056C).
pub open spec fn is_kraken_v4_pro_family(product_id: u16) -> bool {
    product_id == 0x0567 || product_id == 0x0568 || product_id == 0x056c
}

/// The hub (0x0568) and main device (0x056C) take proprietary commands on
/// interface 4; every other device on interface 0.
pub open spec fn spec_control_interface(product_id: u16) -> u8 {
    if product_id == 0x0568 || product_id == 0x056c {
        4
    } else {
        0
    }
}

/// The profile the registry holds for a product ID.
pub open spec fn spec_profile(product_id: u16) -> Option<ProfileView> {
    match registry_entry(product_id) {
        Some(row) => Some(
            ProfileView {
                name: row.0,
                product_id,
                device_type: row.1,
                capabilities: spec_capabilities(product_id, row.1, row.2, row.3),
                control_interface: spec_control_interface(product_id),
            },
        ),
        None => None,
    }
}

/// Whether the registry advertises `cap` for `product_id`.
pub open spec fn spec_has_capability(product_id: u16, cap: DeviceCapability) -> bool {
    match spec_profile(product_id) {
        Some(p) => p.capabilities.contains(cap),
        None => false,
    }
}

/// What the registry advertises: every profile describes the product ID it
/// was looked up with and lists lighting first; it advertises battery
/// reporting and DPI control exactly as its row says, sidetone and the
/// microphone exactly for audio devices, and haptic feedback and THX Spatial
/// Audio exactly for the Kraken V4 Pro family (all audio devices); commands go
/// to interface 4 exactly for the Kraken V4 Pro hub and main device.
pub proof fn lemma_profile_shape(product_id: u16)
    ensures
        spec_profile(product_id) matches Some(p) ==> {
            let row = registry_entry(product_id).unwrap();
            &&& p.product_id == product_id
            &&& p.capabilities[0] == DeviceCapability::Lighting(LightingEffect::Static([0u8, 0u8, 0u8]))
            &&& (p.control_interface == 4 <==> (product_id == 0x0568 || product_id == 0x056c))
            &&& (p.control_interface == 0 <==> !(product_id == 0x0568 || product_id == 0x056c))
            &&& (p.capabilities.contains(DeviceCapability::BatteryReporting) <==> row.2)
            &&& (p.capabilities.contains(DeviceCapability::DpiControl) <==> row.3)
            &&& (p.capabilities.contains(DeviceCapability::Sidetone) <==> p.device_type == DeviceType::Audio)
            &&& (p.capabilities.contains(DeviceCapability::Microphone) <==> p.device_type == DeviceType::Audio)
            &&& (p.capabilities.contains(DeviceCapability::HapticFeedback) <==> is_kraken_v4_pro_family(product_id))
            &&& (p.capabilities.contains(DeviceCapability::ThxSpatialAudio) <==> is_kraken_v4_pro_family(product_id))
            &&& (is_kraken_v4_pro_family(product_id) ==> p.device_type == DeviceType::Audio)
        },
{
    if let Some(p) = spec_profile(product_id) {
        let row = registry_entry(product_id).unwrap();
        let caps = p.capabilities;
        let l = seq![DeviceCapability::Lighting(LightingEffect::Static([0u8, 0u8, 0u8]))];
        let b: Seq<DeviceCapability> = if row.2 { seq![DeviceCapability::BatteryReporting] } else { seq![] };
        let d: Seq<DeviceCapability> = if row.3 { seq![DeviceCapability::DpiControl] } else { seq![] };
        let a: Seq<DeviceCapability> = if row.1 == DeviceType::Audio {
            seq![DeviceCapability::Sidetone, DeviceCapability::Microphone]
        } else {
            seq![]
        };
        let k: Seq<DeviceCapability> = if is_kraken_v4_pro_family(product_id) {
            seq![DeviceCapability::HapticFeedback, DeviceCapability::ThxSpatialAudio]
        } else {
            seq![]
        };
        assert(caps =~= l + b + d + a + k);
        assert forall|c: DeviceCapability| caps.contains(c) <==> (l.contains(c) || b.contains(c)
            || d.contains(c) || a.contains(c) || k.contains(c)) by {
            if caps.contains(c) {
                let i = choose|i: int| 0 <= i < caps.len() && caps[i] == c;
                if i < 1 {
                    assert(l[i] == c);
                } else if i < 1 + b.len() {
                    assert(b[i - 1] == c);
                } else if i < 1 + b.len() + d.len() {
                    assert(d[i - 1 - b.len()] == c);
                } else if i < 1 + b.len() + d.len() + a.len() {
                    assert(a[i - 1 - b.len() - d.len()] == c);
                } else {
                    assert(k[i - 1 - b.len() - d.len() - a.len()] == c);
                }
            }
            if l.contains(c) {
                let i = choose|i: int| 0 <= i < l.len() && l[i] == c;
                assert(caps[i] == c);
            }
            if b.contains(c) {
                let i = choose|i: int| 0 <= i < b.len() && b[i] == c;
                assert(caps[1 + i] == c);
            }
            if d.contains(c) {
                let i = choose|i: int| 0 <= i < d.len() && d[i] == c;
                assert(caps[1 + b.len() + i] == c);
            }
            if a.contains(c) {
                let i = choose|i: int| 0 <= i < a.len() && a[i] == c;
                assert(caps[1 + b.len() + d.len() + i] == c);
            }
            if k.contains(c) {
                let i = choose|i: int| 0 <= i < k.len() && k[i] == c;
                assert(caps[1 + b.len() + d.len() + a.len() + i] == c);
            }
        }
        if row.2 {
            assert(b[0] == DeviceCapability::BatteryReporting);
        }
        if row.3 {
            assert(d[0] == DeviceCapability::DpiControl);
        }
        if row.1 == DeviceType::Audio {
            assert(a[0] == DeviceCapability::Sidetone);
            assert(a[1] == DeviceCapability::Microphone);
        }
        if is_kraken_v4_pro_family(product_id) {
            assert(k[0] == DeviceCapability::HapticFeedback);
            assert(k[1] == DeviceCapability::ThxSpatialAudio);
            assert(registry_entry(0x0567).unwrap().1 == DeviceType::Audio);
            assert(registry_entry(0x0568).unwrap().1 == DeviceType::Audio);
            assert(registry_entry(0x056c).unwrap().1 == DeviceType::Audio);
        }
    }
}

/// Looks up the registry row of a product ID.
#[verifier::rlimit(100)]
fn registry_row(product_id: u16) -> (r: Option<(&'static str, DeviceType, bool, bool)>)
    ensures
        match (r, registry_entry(product_id)) {
            (Some(a), Some(b)) => a.0@ == b.0 && a.1 == b.1 && a.2 == b.2 && a.3 == b.3,
            (None, None) => true,
            _ => false,
        },
{
    match product_id {
        // ── Abyssus family
        0x0042 => Some(("Razer Abyssus", DeviceType::Mouse, false, false)),
        0x0020 => Some(("Razer Abyssus 1800", DeviceType::Mouse, false, false)),
        0x005E => Some(("Razer Abyssus 2000", DeviceType::Mouse, false, false)),
        0x006B => Some(("Razer Abyssus Essential", DeviceType::Mouse, false, false)),
        0x005B => Some(("Razer Abyssus V2", DeviceType::Mouse, false, false)),
        0x006A => Some(("Razer Abyssus Elite D.Va Edition", DeviceType::Mouse, false, false)),
        // ── Atheris family
        0x0062 => Some(("Razer Atheris (Receiver)", DeviceType::Mouse, true, false)),
        // ── Basilisk family
        0x0064 => Some(("Razer Basilisk", DeviceType::Mouse, false, false)),
        0x0065 => Some(("Razer Basilisk Essential", DeviceType::Mouse, false, false)),
        0x0083 => Some(("Razer Basilisk X HyperSpeed", DeviceType::Mouse, true, false)),
        0x0085 => Some(("Razer Basilisk V2", DeviceType::Mouse, false, false)),
        0x0086 => Some(("Razer Basilisk Ultimate (Wired)", DeviceType::Mouse, false, false)),
        0x0088 => Some(("Razer Basilisk Ultimate (Receiver)", DeviceType::Mouse, true, false)),
        0x0099 => Some(("Razer Basilisk V3", DeviceType::Mouse, false, false)),
        0x00AA => Some(("Razer Basilisk V3 Pro (Wired)", DeviceType::Mouse, false, false)),
        0x00AB => Some(("Razer Basilisk V3 Pro (Wireless)", DeviceType::Mouse, true, false)),
        0x00B9 => Some(("Razer Basilisk V3 X HyperSpeed", DeviceType::Mouse, true, false)),
        0x00CB => Some(("Razer Basilisk V3 35K", DeviceType::Mouse, false, false)),
        0x00CC => Some(("Razer Basilisk V3 Pro 35K (Wired)", DeviceType::Mouse, false, false)),
        0x00CD => Some(("Razer Basilisk V3 Pro 35K (Wireless)", DeviceType::Mouse, true, false)),
        0x00D6 => Some(("Razer Basilisk V3 Pro 35K Phantom Green (Wired)", DeviceType::Mouse, false, false)),
        0x00D7 => Some(("Razer Basilisk V3 Pro 35K Phantom Green (Wireless)", DeviceType::Mouse, true, false)),
        // ── Cobra family
        0x00A3 => Some(("Razer Cobra", DeviceType::Mouse, false, false)),
        0x00AF => Some(("Razer Cobra Pro (Wired)", DeviceType::Mouse, false, true)),
        0x00B0 => Some(("Razer Cobra Pro (Wireless)", DeviceType::Mouse, true, true)),
        // ── DeathAdder family
        0x0016 => Some(("Razer DeathAdder 3.5G", DeviceType::Mouse, false, false)),
        0x0029 => Some(("Razer DeathAdder 3.5G (Black)", DeviceType::Mouse, false, false)),
        0x0037 => Some(("Razer DeathAdder 2013", DeviceType::Mouse, false, false)),
        0x0038 => Some(("Razer DeathAdder 1800", DeviceType::Mouse, false, false)),
        0x0043 => Some(("Razer DeathAdder Chroma", DeviceType::Mouse, false, false)),
        0x004F => Some(("Razer DeathAdder 2000", DeviceType::Mouse, false, false)),
        0x0054 => Some(("Razer DeathAdder 3500", DeviceType::Mouse, false, false)),
        0x005C => Some(("Razer DeathAdder Elite", DeviceType::Mouse, false, false)),
        0x006E => Some(("Razer DeathAdder Essential", DeviceType::Mouse, false, false)),
        0x0071 => Some(("Razer DeathAdder Essential (White Edition)", DeviceType::Mouse, false, false)),
        0x0084 => Some(("Razer DeathAdder V2", DeviceType::Mouse, false, false)),
        0x008C => Some(("Razer DeathAdder V2 Mini", DeviceType::Mouse, false, false)),
        0x0098 => Some(("Razer DeathAdder Essential (2021)", DeviceType::Mouse, false, false)),
        0x009C => Some(("Razer DeathAdder V2 X HyperSpeed", DeviceType::Mouse, true, false)),
        0x00A1 => Some(("Razer DeathAdder V2 Lite", DeviceType::Mouse, false, false)),
        0x007C => Some(("Razer DeathAdder V2 Pro (Wired)", DeviceType::Mouse, false, false)),
        0x007D => Some(("Razer DeathAdder V2 Pro (Wireless)", DeviceType::Mouse, true, false)),
        0x00B2 => Some(("Razer DeathAdder V3", DeviceType::Mouse, false, false)),
        0x00B6 => Some(("Razer DeathAdder V3 Pro (Wired)", DeviceType::Mouse, false, false)),
        0x00B7 => Some(("Razer DeathAdder V3 Pro (Wireless)", DeviceType::Mouse, true, false)),
        0x00C2 => Some(("Razer DeathAdder V3 Pro (Wired, Alt)", DeviceType::Mouse, false, false)),
        0x00C3 => Some(("Razer DeathAdder V3 Pro (Wireless, Alt)", DeviceType::Mouse, true, false)),
        0x00C4 => Some(("Razer DeathAdder V3 HyperSpeed (Wired)", DeviceType::Mouse, false, false)),
        0x00C5 => Some(("Razer DeathAdder V3 HyperSpeed (Wireless)", DeviceType::Mouse, true, false)),
        0x00BE => Some(("Razer DeathAdder V4 Pro (Wired)", DeviceType::Mouse, false, false)),
        0x00BF => Some(("Razer DeathAdder V4 Pro (Wireless)", DeviceType::Mouse, true, false)),
        // ── Diamondback family
        0x004C => Some(("Razer Diamondback Chroma", DeviceType::Mouse, false, false)),
        // ── HyperPolling Dongle
        0x00B3 => Some(("Razer HyperPolling Wireless Dongle", DeviceType::Mouse, false, false)),
        // ── Imperator family
        0x002F => Some(("Razer Imperator", DeviceType::Mouse, false, false)),
        // ── Lancehead family
        0x0059 => Some(("Razer Lancehead (Wired)", DeviceType::Mouse, false, false)),
        0x005A => Some(("Razer Lancehead (Wireless)", DeviceType::Mouse, true, false)),
        0x0060 => Some(("Razer Lancehead Tournament Edition", DeviceType::Mouse, false, false)),
        0x0070 => Some(("Razer Lancehead Wireless (Wired)", DeviceType::Mouse, false, false)),
        0x006F => Some(("Razer Lancehead Wireless (Receiver)", DeviceType::Mouse, true, false)),
        // ── Mamba family
        0x0024 => Some(("Razer Mamba 2012 (Wired)", DeviceType::Mouse, false, false)),
        0x0025 => Some(("Razer Mamba 2012 (Wireless)", DeviceType::Mouse, true, false)),
        0x0044 => Some(("Razer Mamba Chroma (Wired)", DeviceType::Mouse, false, false)),
        0x0045 => Some(("Razer Mamba Chroma (Wireless)", DeviceType::Mouse, true, false)),
        0x0046 => Some(("Razer Mamba Tournament Edition", DeviceType::Mouse, false, false)),
        0x006C => Some(("Razer Mamba Elite", DeviceType::Mouse, false, false)),
        0x0072 => Some(("Razer Mamba Wireless (Receiver)", DeviceType::Mouse, true, false)),
        0x0073 => Some(("Razer Mamba Wireless (Wired)", DeviceType::Mouse, false, false)),
        // ── Naga family
        0x0015 => Some(("Razer Naga", DeviceType::Mouse, false, false)),
        0x001F => Some(("Razer Naga Epic", DeviceType::Mouse, false, false)),
        0x002E => Some(("Razer Naga 2012", DeviceType::Mouse, false, false)),
        0x0036 => Some(("Razer Naga Hex (Red)", DeviceType::Mouse, false, false)),
        0x0040 => Some(("Razer Naga 2014", DeviceType::Mouse, false, false)),
        0x0041 => Some(("Razer Naga Hex", DeviceType::Mouse, false, false)),
        0x003E => Some(("Razer Naga Epic Chroma (Wired)", DeviceType::Mouse, false, false)),
        0x003F => Some(("Razer Naga Epic Chroma (Wireless)", DeviceType::Mouse, true, false)),
        0x0050 => Some(("Razer Naga Hex V2", DeviceType::Mouse, false, false)),
        0x0053 => Some(("Razer Naga Chroma", DeviceType::Mouse, false, false)),
        0x0067 => Some(("Razer Naga Trinity", DeviceType::Mouse, false, false)),
        0x008D => Some(("Razer Naga Left-Handed 2020", DeviceType::Mouse, false, false)),
        0x008F => Some(("Razer Naga Pro (Wired)", DeviceType::Mouse, false, false)),
        0x0090 => Some(("Razer Naga Pro (Wireless)", DeviceType::Mouse, true, false)),
        0x0096 => Some(("Razer Naga X", DeviceType::Mouse, false, false)),
        0x00A7 => Some(("Razer Naga V2 Pro (Wired)", DeviceType::Mouse, false, false)),
        0x00A8 => Some(("Razer Naga V2 Pro (Wireless)", DeviceType::Mouse, true, false)),
        0x00B4 => Some(("Razer Naga V2 HyperSpeed (Receiver)", DeviceType::Mouse, true, false)),
        // ── Orochi family
        0x0013 => Some(("Razer Orochi 2011", DeviceType::Mouse, false, false)),
        0x0039 => Some(("Razer Orochi 2013", DeviceType::Mouse, false, false)),
        0x0048 => Some(("Razer Orochi (Wired)", DeviceType::Mouse, false, false)),
        0x0094 => Some(("Razer Orochi V2 (Receiver)", DeviceType::Mouse, true, false)),
        0x0095 => Some(("Razer Orochi V2 (Bluetooth)", DeviceType::Mouse, true, false)),
        // ── Ouroboros family
        0x0032 => Some(("Razer Ouroboros", DeviceType::Mouse, false, false)),
        // ── Pro Click family
        0x0077 => Some(("Razer Pro Click (Receiver)", DeviceType::Mouse, true, false)),
        0x0080 => Some(("Razer Pro Click (Wired)", DeviceType::Mouse, false, false)),
        0x009A => Some(("Razer Pro Click Mini (Receiver)", DeviceType::Mouse, true, false)),
        0x00C7 => Some(("Razer Pro Click V2 Vertical (Wired)", DeviceType::Mouse, false, false)),
        0x00C8 => Some(("Razer Pro Click V2 Vertical (Wireless)", DeviceType::Mouse, true, false)),
        0x00D0 => Some(("Razer Pro Click V2 (Wired)", DeviceType::Mouse, false, false)),
        0x00D1 => Some(("Razer Pro Click V2 (Wireless)", DeviceType::Mouse, true, false)),
        // ── Taipan family
        0x0034 => Some(("Razer Taipan", DeviceType::Mouse, false, false)),
        // ── Viper family
        0x0078 => Some(("Razer Viper", DeviceType::Mouse, false, false)),
        0x0091 => Some(("Razer Viper 8KHz", DeviceType::Mouse, false, false)),
        0x008A => Some(("Razer Viper Mini", DeviceType::Mouse, false, false)),
        0x009E => Some(("Razer Viper Mini SE (Wired)", DeviceType::Mouse, false, false)),
        0x009F => Some(("Razer Viper Mini SE (Wireless)", DeviceType::Mouse, true, false)),
        0x007A => Some(("Razer Viper Ultimate (Wired)", DeviceType::Mouse, false, false)),
        0x007B => Some(("Razer Viper Ultimate (Wireless)", DeviceType::Mouse, true, false)),
        0x00A5 => Some(("Razer Viper V2 Pro (Wired)", DeviceType::Mouse, false, false)),
        0x00A6 => Some(("Razer Viper V2 Pro (Wireless)", DeviceType::Mouse, true, false)),
        0x00B8 => Some(("Razer Viper V3 HyperSpeed", DeviceType::Mouse, true, false)),
        0x00C0 => Some(("Razer Viper V3 Pro (Wired)", DeviceType::Mouse, false, false)),
        0x00C1 => Some(("Razer Viper V3 Pro (Wireless)", DeviceType::Mouse, true, false)),
        // ── Anansi
        0x010F => Some(("Razer Anansi", DeviceType::Keyboard, false, false)),
        // ── BlackWidow family
        0x010D => Some(("Razer BlackWidow Ultimate 2012", DeviceType::Keyboard, false, false)),
        0x011A => Some(("Razer BlackWidow Ultimate 2013", DeviceType::Keyboard, false, false)),
        0x011B => Some(("Razer BlackWidow Stealth", DeviceType::Keyboard, false, false)),
        0x010E => Some(("Razer BlackWidow Stealth Edition", DeviceType::Keyboard, false, false)),
        0x011C => Some(("Razer BlackWidow Tournament Edition 2014", DeviceType::Keyboard, false, false)),
        0x0203 => Some(("Razer BlackWidow Chroma", DeviceType::Keyboard, false, false)),
        0x0209 => Some(("Razer BlackWidow Chroma Tournament Edition", DeviceType::Keyboard, false, false)),
        0x0211 => Some(("Razer BlackWidow Chroma (Overwatch)", DeviceType::Keyboard, false, false)),
        0x0214 => Some(("Razer BlackWidow Ultimate 2016", DeviceType::Keyboard, false, false)),
        0x0216 => Some(("Razer BlackWidow X Chroma", DeviceType::Keyboard, false, false)),
        0x0217 => Some(("Razer BlackWidow X Ultimate", DeviceType::Keyboard, false, false)),
        0x021A => Some(("Razer BlackWidow X Tournament Edition Chroma", DeviceType::Keyboard, false, false)),
        0x0221 => Some(("Razer BlackWidow Chroma V2", DeviceType::Keyboard, false, false)),
        0x0228 => Some(("Razer BlackWidow Elite", DeviceType::Keyboard, false, false)),
        0x0235 => Some(("Razer BlackWidow Lite", DeviceType::Keyboard, false, false)),
        0x0237 => Some(("Razer BlackWidow Essential", DeviceType::Keyboard, false, false)),
        0x0241 => Some(("Razer BlackWidow 2019", DeviceType::Keyboard, false, false)),
        0x024E => Some(("Razer BlackWidow V3", DeviceType::Keyboard, false, false)),
        0x025A => Some(("Razer BlackWidow V3 Pro (Wired)", DeviceType::Keyboard, false, false)),
        0x025C => Some(("Razer BlackWidow V3 Pro (Wireless)", DeviceType::Keyboard, true, false)),
        0x0258 => Some(("Razer BlackWidow V3 Mini HyperSpeed (Wired)", DeviceType::Keyboard, false, false)),
        0x0271 => Some(("Razer BlackWidow V3 Mini HyperSpeed (Wireless)", DeviceType::Keyboard, true, false)),
        0x0A24 => Some(("Razer BlackWidow V3 TKL", DeviceType::Keyboard, false, false)),
        0x0287 => Some(("Razer BlackWidow V4", DeviceType::Keyboard, false, false)),
        0x028D => Some(("Razer BlackWidow V4 Pro", DeviceType::Keyboard, false, false)),
        0x02A5 => Some(("Razer BlackWidow V4 75%", DeviceType::Keyboard, false, false)),
        0x0293 => Some(("Razer BlackWidow V4 X", DeviceType::Keyboard, false, false)),
        0x02B9 => Some(("Razer BlackWidow V4 Mini HyperSpeed (Wired)", DeviceType::Keyboard, false, false)),
        0x02BA => Some(("Razer BlackWidow V4 Mini HyperSpeed (Wireless)", DeviceType::Keyboard, true, false)),
        0x02D7 => Some(("Razer BlackWidow V4 TKL HyperSpeed (Wired)", DeviceType::Keyboard, false, false)),
        0x02D5 => Some(("Razer BlackWidow V4 TKL HyperSpeed (Wireless)", DeviceType::Keyboard, true, false)),
        // ── Cynosa family
        0x022A => Some(("Razer Cynosa Chroma", DeviceType::Keyboard, false, false)),
        0x022C => Some(("Razer Cynosa Chroma Pro", DeviceType::Keyboard, false, false)),
        0x023F => Some(("Razer Cynosa Lite", DeviceType::Keyboard, false, false)),
        0x025E => Some(("Razer Cynosa V2", DeviceType::Keyboard, false, false)),
        // ── DeathStalker family
        0x0202 => Some(("Razer DeathStalker Expert", DeviceType::Keyboard, false, false)),
        0x0118 => Some(("Razer DeathStalker Essential", DeviceType::Keyboard, false, false)),
        0x0204 => Some(("Razer DeathStalker Chroma", DeviceType::Keyboard, false, false)),
        0x0295 => Some(("Razer DeathStalker V2", DeviceType::Keyboard, false, false)),
        0x0292 => Some(("Razer DeathStalker V2 Pro (Wired)", DeviceType::Keyboard, false, false)),
        0x0290 => Some(("Razer DeathStalker V2 Pro (Wireless)", DeviceType::Keyboard, true, false)),
        0x0298 => Some(("Razer DeathStalker V2 Pro TKL (Wired)", DeviceType::Keyboard, false, false)),
        0x0296 => Some(("Razer DeathStalker V2 Pro TKL (Wireless)", DeviceType::Keyboard, true, false)),
        // ── Huntsman family
        0x0226 => Some(("Razer Huntsman Elite", DeviceType::Keyboard, false, false)),
        0x0227 => Some(("Razer Huntsman", DeviceType::Keyboard, false, false)),
        0x0243 => Some(("Razer Huntsman Tournament Edition", DeviceType::Keyboard, false, false)),
        0x0257 => Some(("Razer Huntsman Mini", DeviceType::Keyboard, false, false)),
        0x0269 => Some(("Razer Huntsman Mini JP", DeviceType::Keyboard, false, false)),
        0x0282 => Some(("Razer Huntsman Mini Analog", DeviceType::Keyboard, false, false)),
        0x026B => Some(("Razer Huntsman V2 Tenkeyless", DeviceType::Keyboard, false, false)),
        0x026C => Some(("Razer Huntsman V2", DeviceType::Keyboard, false, false)),
        0x0266 => Some(("Razer Huntsman V2 Analog", DeviceType::Keyboard, false, false)),
        0x02A6 => Some(("Razer Huntsman V3 Pro", DeviceType::Keyboard, false, false)),
        0x02A7 => Some(("Razer Huntsman V3 Pro TKL", DeviceType::Keyboard, false, false)),
        0x02B0 => Some(("Razer Huntsman V3 Pro Mini", DeviceType::Keyboard, false, false)),
        0x02CF => Some(("Razer Huntsman V3 Pro 8KHz", DeviceType::Keyboard, false, false)),
        // ── Nostromo / Tartarus / Orbweaver (macro pads)
        0x0111 => Some(("Razer Nostromo", DeviceType::Keyboard, false, false)),
        0x0201 => Some(("Razer Tartarus", DeviceType::Keyboard, false, false)),
        0x0208 => Some(("Razer Tartarus Chroma", DeviceType::Keyboard, false, false)),
        0x022B => Some(("Razer Tartarus V2", DeviceType::Keyboard, false, false)),
        0x0244 => Some(("Razer Tartarus Pro", DeviceType::Keyboard, false, false)),
        0x0113 => Some(("Razer Orbweaver", DeviceType::Keyboard, false, false)),
        0x0207 => Some(("Razer Orbweaver Chroma", DeviceType::Keyboard, false, false)),
        // ── Ornata family
        0x021F => Some(("Razer Ornata", DeviceType::Keyboard, false, false)),
        0x021E => Some(("Razer Ornata Chroma", DeviceType::Keyboard, false, false)),
        0x025D => Some(("Razer Ornata V2", DeviceType::Keyboard, false, false)),
        0x02A1 => Some(("Razer Ornata V3", DeviceType::Keyboard, false, false)),
        0x028F => Some(("Razer Ornata V3 (Alt)", DeviceType::Keyboard, false, false)),
        0x0294 => Some(("Razer Ornata V3 X", DeviceType::Keyboard, false, false)),
        0x02A2 => Some(("Razer Ornata V3 X (Alt)", DeviceType::Keyboard, false, false)),
        0x02A3 => Some(("Razer Ornata V3 Tenkeyless", DeviceType::Keyboard, false, false)),
        // ── Razer Blade laptop keyboards
        0x0205 => Some(("Razer Blade Stealth", DeviceType::Keyboard, false, false)),
        0x0220 => Some(("Razer Blade Stealth (Late 2016)", DeviceType::Keyboard, false, false)),
        0x022D => Some(("Razer Blade Stealth (Mid 2017)", DeviceType::Keyboard, false, false)),
        0x0232 => Some(("Razer Blade Stealth (Late 2017)", DeviceType::Keyboard, false, false)),
        0x0239 => Some(("Razer Blade Stealth (2019)", DeviceType::Keyboard, false, false)),
        0x024A => Some(("Razer Blade Stealth (Late 2019)", DeviceType::Keyboard, false, false)),
        0x0252 => Some(("Razer Blade Stealth (Early 2020)", DeviceType::Keyboard, false, false)),
        0x0259 => Some(("Razer Blade Stealth (Late 2020)", DeviceType::Keyboard, false, false)),
        0x020F => Some(("Razer Blade QHD", DeviceType::Keyboard, false, false)),
        0x0224 => Some(("Razer Blade (Late 2016)", DeviceType::Keyboard, false, false)),
        0x0210 => Some(("Razer Blade Pro (Late 2016)", DeviceType::Keyboard, false, false)),
        0x0225 => Some(("Razer Blade Pro (2017)", DeviceType::Keyboard, false, false)),
        0x022F => Some(("Razer Blade Pro (2017 Full HD)", DeviceType::Keyboard, false, false)),
        0x0233 => Some(("Razer Blade 15 (2018)", DeviceType::Keyboard, false, false)),
        0x0240 => Some(("Razer Blade 15 Mercury (2018)", DeviceType::Keyboard, false, false)),
        0x023B => Some(("Razer Blade 15 Base (2018)", DeviceType::Keyboard, false, false)),
        0x023A => Some(("Razer Blade 15 Advanced (2019)", DeviceType::Keyboard, false, false)),
        0x0245 => Some(("Razer Blade 15 Mercury (Mid 2019)", DeviceType::Keyboard, false, false)),
        0x0246 => Some(("Razer Blade 15 Base (2019)", DeviceType::Keyboard, false, false)),
        0x0253 => Some(("Razer Blade 15 Advanced (2020)", DeviceType::Keyboard, false, false)),
        0x0255 => Some(("Razer Blade 15 Base (Early 2020)", DeviceType::Keyboard, false, false)),
        0x0268 => Some(("Razer Blade 15 Base (Late 2020)", DeviceType::Keyboard, false, false)),
        0x0276 => Some(("Razer Blade 15 Advanced (2021)", DeviceType::Keyboard, false, false)),
        0x026D => Some(("Razer Blade 15 Advanced (Early 2021)", DeviceType::Keyboard, false, false)),
        0x026F => Some(("Razer Blade 15 Base (Early 2021)", DeviceType::Keyboard, false, false)),
        0x027A => Some(("Razer Blade 15 Base (Early 2022)", DeviceType::Keyboard, false, false)),
        0x028A => Some(("Razer Blade 15 Advanced (Early 2022)", DeviceType::Keyboard, false, false)),
        0x029E => Some(("Razer Blade 15 (2023)", DeviceType::Keyboard, false, false)),
        0x0234 => Some(("Razer Blade Pro (2019)", DeviceType::Keyboard, false, false)),
        0x024C => Some(("Razer Blade Pro (Late 2019)", DeviceType::Keyboard, false, false)),
        0x024B => Some(("Razer Blade Advanced (Late 2019)", DeviceType::Keyboard, false, false)),
        0x0256 => Some(("Razer Blade Pro (Early 2020)", DeviceType::Keyboard, false, false)),
        0x0279 => Some(("Razer Blade 17 Pro (2021)", DeviceType::Keyboard, false, false)),
        0x026E => Some(("Razer Blade 17 Pro (Early 2021)", DeviceType::Keyboard, false, false)),
        0x028B => Some(("Razer Blade 17 (2022)", DeviceType::Keyboard, false, false)),
        0x02A0 => Some(("Razer Blade 18 (2023)", DeviceType::Keyboard, false, false)),
        0x02B8 => Some(("Razer Blade 18 (2024)", DeviceType::Keyboard, false, false)),
        0x02C7 => Some(("Razer Blade 18 (2025)", DeviceType::Keyboard, false, false)),
        0x0270 => Some(("Razer Blade 14 (2021)", DeviceType::Keyboard, false, false)),
        0x028C => Some(("Razer Blade 14 (2022)", DeviceType::Keyboard, false, false)),
        0x029D => Some(("Razer Blade 14 (2023)", DeviceType::Keyboard, false, false)),
        0x02B6 => Some(("Razer Blade 14 (2024)", DeviceType::Keyboard, false, false)),
        0x02C5 => Some(("Razer Blade 14 (2025)", DeviceType::Keyboard, false, false)),
        0x029F => Some(("Razer Blade 16 (2023)", DeviceType::Keyboard, false, false)),
        0x02C6 => Some(("Razer Blade 16 (2025)", DeviceType::Keyboard, false, false)),
        0x024D => Some(("Razer Blade 15 Studio Edition (2019)", DeviceType::Keyboard, false, false)),
        0x026A => Some(("Razer Book (2020)", DeviceType::Keyboard, false, false)),
        // ── Audio / Headsets
        0x0501 => Some(("Razer Kraken 7.1", DeviceType::Audio, false, false)),
        0x0504 => Some(("Razer Kraken 7.1 Chroma", DeviceType::Audio, false, false)),
        0x0506 => Some(("Razer Kraken 7.1 (Alternate)", DeviceType::Audio, false, false)),
        0x0510 => Some(("Razer Kraken 7.1 V2", DeviceType::Audio, false, false)),
        0x0520 => Some(("Razer Kraken Tournament Edition", DeviceType::Audio, false, false)),
        0x0527 => Some(("Razer Kraken Ultimate", DeviceType::Audio, false, false)),
        0x0560 => Some(("Razer Kraken Kitty V2", DeviceType::Audio, false, false)),
        0x0567 => Some(("Razer Kraken V4 Pro (Receiver)", DeviceType::Audio, false, false)),
        0x0568 => Some(("Razer Kraken V4 Pro", DeviceType::Audio, false, false)),
        0x056c => Some(("Razer Kraken V4 Pro (Main)", DeviceType::Audio, false, false)),
        0x0F19 => Some(("Razer Kraken Kitty Edition", DeviceType::Audio, false, false)),
        _ => None,
    }
}

/// The products whose battery the daemon reads over USB: exactly these 40
/// product IDs (the wireless and receiver interfaces of the table) advertise
/// battery reporting.
pub proof fn lemma_battery_reporting_pids(pid: u16)
    ensures
        spec_has_capability(pid, DeviceCapability::BatteryReporting) <==> (
            pid == 0x0025 || pid == 0x003F || pid == 0x0045 || pid == 0x005A || pid ==
            0x0062 || pid == 0x006F || pid == 0x0072 || pid == 0x0077 || pid == 0x007B
            || pid == 0x007D || pid == 0x0083 || pid == 0x0088 || pid == 0x0090 || pid
            == 0x0094 || pid == 0x0095 || pid == 0x009A || pid == 0x009C || pid ==
            0x009F || pid == 0x00A6 || pid == 0x00A8 || pid == 0x00AB || pid == 0x00B0
            || pid == 0x00B4 || pid == 0x00B7 || pid == 0x00B8 || pid == 0x00B9 || pid
            == 0x00BF || pid == 0x00C1 || pid == 0x00C3 || pid == 0x00C5 || pid ==
            0x00C8 || pid == 0x00CD || pid == 0x00D1 || pid == 0x00D7 || pid == 0x025C
            || pid == 0x0271 || pid == 0x0290 || pid == 0x0296 || pid == 0x02BA || pid
            == 0x02D5
        ),
{
    lemma_profile_shape(pid);
}

/// Only the Cobra Pro (wired 0x00AF and wireless 0x00B0) advertises DPI
/// control.
pub proof fn lemma_dpi_control_pids(pid: u16)
    ensures
        spec_has_capability(pid, DeviceCapability::DpiControl) <==> (pid == 0x00AF || pid == 0x00B0),
{
    lemma_profile_shape(pid);
}


/// Looks up a [`DeviceProfile`] by USB product ID (PID).
///
/// Returns `None` when the PID is not in the registry.
pub fn get_device_profile(product_id: u16) -> (r: Option<DeviceProfile>)
    ensures
        match r {
            Some(p) => spec_profile(product_id) == Some(p@),
            None => spec_profile(product_id) is None,
        },
{
    let (name, device_type, has_battery, has_dpi) = match registry_row(product_id) {
        Some(row) => row,
        None => return None,
    };
    let mut capabilities: Vec<DeviceCapability> = Vec::new();
    capabilities.push(DeviceCapability::Lighting(LightingEffect::Static([0, 0, 0])));
    if has_battery {
        capabilities.push(DeviceCapability::BatteryReporting);
    }
    if has_dpi {
        capabilities.push(DeviceCapability::DpiControl);
    }
    // Headset capabilities: sidetone and microphone for every audio device.
    if device_type == DeviceType::Audio {
        capabilities.push(DeviceCapability::Sidetone);
        capabilities.push(DeviceCapability::Microphone);
    }
    // The Kraken V4 Pro receiver, hub and main device support haptics and THX.
    if product_id == 0x0567 || product_id == 0x0568 || product_id == 0x056c {
        capabilities.push(DeviceCapability::HapticFeedback);
        capabilities.push(DeviceCapability::ThxSpatialAudio);
    }
    // The hub and main device route proprietary HID commands to interface 4.
    let control_interface: u8 = if product_id == 0x0568 || product_id == 0x056c {
        4
    } else {
        0
    };
    let profile = DeviceProfile {
        name: name.to_owned(),
        product_id,
        device_type,
        capabilities,
        control_interface,
    };
    assert(profile@.capabilities =~= spec_capabilities(
        product_id,
        device_type,
        has_battery,
        has_dpi,
    ));
    Some(profile)
}

} // verus!
