//! The daemon's device table: registered devices, their current lighting and
//! their persisted settings, and the USB commands each D-Bus request and the
//! start-up restore turn into.

use vstd::prelude::*;

use crate::keyed::{
    find_key, key_index, keyed_view, lemma_key_index, lemma_lookup_after_modify,
    lemma_lookup_after_upsert, spec_lookup, spec_modify, spec_upsert, upsert,
};
use crate::protocol::{
    spec_usb_pid, BatteryState, ConnectionType, DeviceSettings, LightingEffect, RazerDevice,
    RazerProductId,
};
use crate::razer_protocol::{
    build_breathing_payload, build_kraken_v4_static_payload, build_set_dpi_payload,
    build_set_haptic_payload, build_set_sidetone_payload, build_spectrum_payload,
    build_static_color_payload, checksum_valid, colour_effect_args, high_byte,
    lemma_report_checksum_valid, low_byte, razer_report, report_body,
    spec_haptic_report, HapticSequencer, CMD_CLASS, CMD_CLASS_SENSOR, CMD_ID,
    CMD_ID_SET_DPI, CMD_ID_SET_HAPTIC_INTENSITY, CMD_ID_SET_SIDETONE, EFFECT_BREATHING_SINGLE,
    EFFECT_SPECTRUM, EFFECT_STATIC, HAPTIC_REPORT_LEN, LED_BACKLIGHT, LED_ZERO, REPORT_LEN,
    TRANSACTION_ID_COBRA, TRANSACTION_ID_DA, TRANSACTION_ID_HEADSET,
    TRANSACTION_ID_KEYBOARD_WIRELESS, VARSTORE,
};
use crate::registry::{get_device_profile, spec_has_capability, spec_profile, DeviceCapability};

verus! {

/// The (transaction_id, led_id) pair each product uses for lighting commands.
pub open spec fn spec_lighting_params(product_id: RazerProductId) -> (u8, u8) {
    match product_id {
        RazerProductId::CobraProWired | RazerProductId::CobraProWireless => (
            TRANSACTION_ID_COBRA,
            LED_ZERO,
        ),
        RazerProductId::BlackWidowV3MiniHyperSpeedWired => (TRANSACTION_ID_COBRA, LED_BACKLIGHT),
        RazerProductId::BlackWidowV3MiniHyperSpeedWireless => (
            TRANSACTION_ID_KEYBOARD_WIRELESS,
            LED_BACKLIGHT,
        ),
        _ => (TRANSACTION_ID_DA, LED_BACKLIGHT),
    }
}

/// Returns the (transaction_id, led_id) pair for a device's lighting command:
/// the Cobra Pro group uses 0x1F and the zero LED, the BlackWidow V3 Mini
/// HyperSpeed the backlight with 0x1F wired and 0x9F wireless, and every other
/// device (DeathAdder V2 Pro group and unmapped ones) 0x3F and the backlight.
pub fn lighting_params(product_id: &RazerProductId) -> (r: (u8, u8))
    ensures
        r == spec_lighting_params(*product_id),
{
    match product_id {
        RazerProductId::CobraProWired | RazerProductId::CobraProWireless => {
            (TRANSACTION_ID_COBRA, LED_ZERO)
        },
        RazerProductId::BlackWidowV3MiniHyperSpeedWired => (TRANSACTION_ID_COBRA, LED_BACKLIGHT),
        RazerProductId::BlackWidowV3MiniHyperSpeedWireless => {
            (TRANSACTION_ID_KEYBOARD_WIRELESS, LED_BACKLIGHT)
        },
        RazerProductId::DeathAdderV2Pro => (TRANSACTION_ID_DA, LED_BACKLIGHT),
        _ => (TRANSACTION_ID_DA, LED_BACKLIGHT),
    }
}

/// Compares two lighting effects, colours byte by byte.
pub fn lighting_effect_eq(a: &LightingEffect, b: &LightingEffect) -> (r: bool)
    ensures
        r == (*a == *b),
{
    match (a, b) {
        (LightingEffect::Static(x), LightingEffect::Static(y))
        | (LightingEffect::Breathing(x), LightingEffect::Breathing(y)) => {
            let same = x[0] == y[0] && x[1] == y[1] && x[2] == y[2];
            proof {
                if same {
                    assert(*x =~= *y);
                }
            }
            same
        },
        (LightingEffect::Spectrum, LightingEffect::Spectrum) => true,
        _ => false,
    }
}

/// Compares two capabilities.
pub fn capability_eq(a: &DeviceCapability, b: &DeviceCapability) -> (r: bool)
    ensures
        r == (*a == *b),
{
    match (a, b) {
        (DeviceCapability::Lighting(x), DeviceCapability::Lighting(y)) => lighting_effect_eq(x, y),
        (DeviceCapability::BatteryReporting, DeviceCapability::BatteryReporting) => true,
        (DeviceCapability::DpiControl, DeviceCapability::DpiControl) => true,
        (DeviceCapability::Sidetone, DeviceCapability::Sidetone) => true,
        (DeviceCapability::Microphone, DeviceCapability::Microphone) => true,
        (DeviceCapability::HapticFeedback, DeviceCapability::HapticFeedback) => true,
        (DeviceCapability::ThxSpatialAudio, DeviceCapability::ThxSpatialAudio) => true,
        _ => false,
    }
}

/// Whether the registry advertises `cap` for `product_id`.
pub fn has_capability(product_id: u16, cap: &DeviceCapability) -> (r: bool)
    ensures
        r == spec_has_capability(product_id, *cap),
{
    match get_device_profile(product_id) {
        None => false,
        Some(profile) => {
            let caps = &profile.capabilities;
            let mut i: usize = 0;
            while i < caps.len()
                invariant
                    i <= caps@.len(),
                    spec_profile(product_id) == Some(profile@),
                    caps@ == profile@.capabilities,
                    forall|j: int| 0 <= j < i ==> caps@[j] != *cap,
                decreases caps@.len() - i,
            {
                if capability_eq(&caps[i], cap) {
                    assert(caps@.contains(*cap)) by {
                        assert(caps@[i as int] == *cap);
                    }
                    return true;
                }
                i = i + 1;
            }
            false
        },
    }
}

/// The 90-byte report that applies a lighting effect with the given
/// transaction and LED IDs.
pub open spec fn spec_effect_payload(transaction_id: u8, led_id: u8, effect: LightingEffect) -> Seq<
    u8,
> {
    match effect {
        LightingEffect::Static(c) => razer_report(
            transaction_id,
            0x09,
            CMD_CLASS,
            CMD_ID,
            colour_effect_args(led_id, EFFECT_STATIC, c[0], c[1], c[2]),
        ),
        LightingEffect::Breathing(c) => razer_report(
            transaction_id,
            0x09,
            CMD_CLASS,
            CMD_ID,
            colour_effect_args(led_id, EFFECT_BREATHING_SINGLE, c[0], c[1], c[2]),
        ),
        LightingEffect::Spectrum => razer_report(
            transaction_id,
            0x03,
            CMD_CLASS,
            CMD_ID,
            seq![VARSTORE, led_id, EFFECT_SPECTRUM],
        ),
    }
}

/// Builds the report that applies a lighting effect with the given
/// transaction and LED IDs.
pub fn effect_payload(transaction_id: u8, led_id: u8, effect: &LightingEffect) -> (buf: [u8;
    REPORT_LEN])
    ensures
        buf@ == spec_effect_payload(transaction_id, led_id, *effect),
{
    match effect {
        LightingEffect::Static(c) => build_static_color_payload(
            transaction_id,
            led_id,
            c[0],
            c[1],
            c[2],
        ),
        LightingEffect::Breathing(c) => build_breathing_payload(
            transaction_id,
            led_id,
            c[0],
            c[1],
            c[2],
        ),
        LightingEffect::Spectrum => build_spectrum_payload(transaction_id, led_id),
    }
}

/// The report a lighting request sends to a device, or `None` when the
/// device does not support the effect: the Kraken V4 Pro takes only static
/// colours, through its own report; every other product takes all three
/// effects with its lighting parameters.
pub open spec fn spec_lighting_request(product_id: RazerProductId, effect: LightingEffect) -> Option<
    Seq<u8>,
> {
    if product_id == RazerProductId::KrakenV4Pro {
        match effect {
            LightingEffect::Static(c) => Some(razer_report(0xFF, 0x05, 0x0F, 0x02, seq![c[0], c[1], c[2]])),
            _ => None,
        }
    } else {
        let (t, led) = spec_lighting_params(product_id);
        Some(spec_effect_payload(t, led, effect))
    }
}

/// A lighting request for a registered device: the USB product ID to send to
/// and the report to send, or `None` when the device does not support the
/// effect.
pub struct LightingPlan {
    pub product_id: u16,
    pub payload: Option<[u8; REPORT_LEN]>,
}

/// A haptic intensity request: a 64-byte report for the Kraken V4 Pro hub or
/// a 90-byte report for other haptic headsets.
pub enum HapticPlan {
    HubReport { product_id: u16, report: [u8; HAPTIC_REPORT_LEN] },
    LegacyReport { product_id: u16, payload: [u8; REPORT_LEN] },
}

/// One USB report to send to a device, tagged with the device's identifier.
pub struct DeviceCommand {
    pub device_id: String,
    pub product_id: u16,
    pub payload: [u8; REPORT_LEN],
}

impl View for DeviceCommand {
    type V = (Seq<char>, u16, Seq<u8>);

    open spec fn view(&self) -> (Seq<char>, u16, Seq<u8>) {
        (self.device_id@, self.product_id, self.payload@)
    }
}

/// The settings after setting the lighting preference of `key`: an existing
/// entry keeps its DPI, a new entry has no DPI.
pub open spec fn spec_set_lighting_pref(
    settings: Seq<(Seq<char>, DeviceSettings)>,
    key: Seq<char>,
    effect: LightingEffect,
) -> Seq<(Seq<char>, DeviceSettings)> {
    match spec_lookup(settings, key) {
        Some(s) => spec_upsert(settings, key, DeviceSettings { lighting: Some(effect), ..s }),
        None => spec_upsert(settings, key, DeviceSettings { lighting: Some(effect), dpi: None }),
    }
}

/// The settings after setting the DPI preference of `key`: an existing entry
/// keeps its lighting, a new entry has no lighting.
pub open spec fn spec_set_dpi_pref(
    settings: Seq<(Seq<char>, DeviceSettings)>,
    key: Seq<char>,
    dpi: u16,
) -> Seq<(Seq<char>, DeviceSettings)> {
    match spec_lookup(settings, key) {
        Some(s) => spec_upsert(settings, key, DeviceSettings { dpi: Some(dpi), ..s }),
        None => spec_upsert(settings, key, DeviceSettings { lighting: None, dpi: Some(dpi) }),
    }
}

/// The report that sets both DPI axes to `dpi`.
pub open spec fn spec_dpi_payload(transaction_id: u8, dpi_x: u16, dpi_y: u16) -> Seq<u8> {
    razer_report(
        transaction_id,
        0x07,
        CMD_CLASS_SENSOR,
        CMD_ID_SET_DPI,
        seq![VARSTORE, high_byte(dpi_x), low_byte(dpi_x), high_byte(dpi_y), low_byte(dpi_y)],
    )
}

/// The commands that restore one device's saved settings: its lighting
/// effect if one is saved, then its DPI (on both axes) if one is saved and
/// the registry advertises DPI control for it.
pub open spec fn spec_device_restore(
    id: Seq<char>,
    device: RazerDevice,
    settings: Seq<(Seq<char>, DeviceSettings)>,
) -> Seq<(Seq<char>, u16, Seq<u8>)> {
    match spec_lookup(settings, id) {
        None => seq![],
        Some(s) => {
            let pid = spec_usb_pid(device.product_id);
            let (t, led) = spec_lighting_params(device.product_id);
            let light = match s.lighting {
                Some(e) => seq![(id, pid, spec_effect_payload(t, led, e))],
                None => seq![],
            };
            let dpi = match s.dpi {
                Some(d) => if spec_has_capability(pid, DeviceCapability::DpiControl) {
                    seq![(id, pid, spec_dpi_payload(t, d, d))]
                } else {
                    seq![]
                },
                None => seq![],
            };
            light + dpi
        },
    }
}

/// The commands that restore the saved settings of every device, device by
/// device in registration order.
pub open spec fn spec_restore_commands(
    devices: Seq<(Seq<char>, RazerDevice)>,
    settings: Seq<(Seq<char>, DeviceSettings)>,
) -> Seq<(Seq<char>, u16, Seq<u8>)>
    decreases devices.len(),
{
    if devices.len() == 0 {
        seq![]
    } else {
        spec_restore_commands(devices.drop_last(), settings) + spec_device_restore(
            devices.last().0,
            devices.last().1,
            settings,
        )
    }
}

/// A device's sidetone / haptic level as sent to the hardware: at most 100.
pub open spec fn clamp_level(level: u8) -> u8 {
    if level > 100 {
        100
    } else {
        level
    }
}

/// The device table behind the daemon's D-Bus interface.
pub struct DeviceManager {
    devices: Vec<(String, RazerDevice)>,
    lighting: Vec<(String, LightingEffect)>,
    settings: Vec<(String, DeviceSettings)>,
}

impl DeviceManager {
    /// Registered devices, in registration order.
    pub closed spec fn devices(&self) -> Seq<(Seq<char>, RazerDevice)> {
        keyed_view(self.devices@)
    }

    /// Lighting effect last applied to each device.
    pub closed spec fn lighting(&self) -> Seq<(Seq<char>, LightingEffect)> {
        keyed_view(self.lighting@)
    }

    /// Persisted per-device settings.
    pub closed spec fn settings(&self) -> Seq<(Seq<char>, DeviceSettings)> {
        keyed_view(self.settings@)
    }

    /// An empty table with no persisted settings.
    pub fn new() -> (m: Self)
        ensures
            m.devices() == Seq::<(Seq<char>, RazerDevice)>::empty(),
            m.lighting() == Seq::<(Seq<char>, LightingEffect)>::empty(),
            m.settings() == Seq::<(Seq<char>, DeviceSettings)>::empty(),
    {
        let m = DeviceManager { devices: Vec::new(), lighting: Vec::new(), settings: Vec::new() };
        assert(m.devices() =~= Seq::<(Seq<char>, RazerDevice)>::empty());
        assert(m.lighting() =~= Seq::<(Seq<char>, LightingEffect)>::empty());
        assert(m.settings() =~= Seq::<(Seq<char>, DeviceSettings)>::empty());
        m
    }

    /// An empty table holding the settings persisted on disk.
    pub fn with_settings(settings: Vec<(String, DeviceSettings)>) -> (m: Self)
        ensures
            m.devices() == Seq::<(Seq<char>, RazerDevice)>::empty(),
            m.lighting() == Seq::<(Seq<char>, LightingEffect)>::empty(),
            m.settings() == keyed_view(settings@),
    {
        let m = DeviceManager { devices: Vec::new(), lighting: Vec::new(), settings };
        assert(m.devices() =~= Seq::<(Seq<char>, RazerDevice)>::empty());
        assert(m.lighting() =~= Seq::<(Seq<char>, LightingEffect)>::empty());
        m
    }

    /// Registers a device under `id`, replacing any device registered there.
    pub fn add_device(&mut self, id: String, device: RazerDevice)
        ensures
            final(self).devices() == spec_upsert(old(self).devices(), id@, device),
            final(self).lighting() == old(self).lighting(),
            final(self).settings() == old(self).settings(),
    {
        upsert(&mut self.devices, id, device);
    }

    /// The device registered under `id`.
    pub fn get_device(&self, id: &str) -> (r: Option<&RazerDevice>)
        ensures
            match r {
                Some(d) => spec_lookup(self.devices(), id@) == Some(*d),
                None => spec_lookup(self.devices(), id@) is None,
            },
    {
        proof {
            lemma_key_index(self.devices(), id@);
        }
        match find_key(&self.devices, id) {
            Some(i) => Some(&self.devices[i].1),
            None => None,
        }
    }

    /// All registered devices, in registration order.
    pub fn get_all_devices(&self) -> (r: Vec<&RazerDevice>)
        ensures
            r@.len() == self.devices().len(),
            forall|i: int| 0 <= i < r@.len() ==> *r@[i] == self.devices()[i].1,
    {
        let mut r: Vec<&RazerDevice> = Vec::new();
        let mut i: usize = 0;
        while i < self.devices.len()
            invariant
                i <= self.devices@.len(),
                r@.len() == i,
                forall|j: int| 0 <= j < i ==> *r@[j] == self.devices@[j].1,
            decreases self.devices@.len() - i,
        {
            r.push(&self.devices[i].1);
            i = i + 1;
        }
        r
    }

    /// The devices with their identifiers, in registration order.
    pub fn device_entries(&self) -> (r: &Vec<(String, RazerDevice)>)
        ensures
            keyed_view(r@) == self.devices(),
    {
        &self.devices
    }

    /// Records a new battery state for the device registered under `id`; does
    /// nothing when no device is registered there.
    pub fn update_battery(&mut self, id: &str, state: BatteryState)
        ensures
            final(self).devices() == spec_modify(
                old(self).devices(),
                id@,
                |d: RazerDevice| RazerDevice { battery_state: state, ..d },
            ),
            final(self).lighting() == old(self).lighting(),
            final(self).settings() == old(self).settings(),
    {
        proof {
            lemma_key_index(self.devices(), id@);
        }
        if let Some(i) = find_key(&self.devices, id) {
            self.devices[i].1.battery_state = state;
        }
        assert(self.devices() =~= spec_modify(
            old(self).devices(),
            id@,
            |d: RazerDevice| RazerDevice { battery_state: state, ..d },
        ));
    }

    /// Updates the name, product ID and connection type of the device
    /// registered under `id` after its physical connection changed; does
    /// nothing when no device is registered there.
    pub fn update_connection(
        &mut self,
        id: &str,
        name: String,
        product_id: RazerProductId,
        connection_type: ConnectionType,
    )
        ensures
            final(self).devices() == spec_modify(
                old(self).devices(),
                id@,
                |d: RazerDevice| RazerDevice { name, product_id, connection_type, ..d },
            ),
            final(self).lighting() == old(self).lighting(),
            final(self).settings() == old(self).settings(),
    {
        proof {
            lemma_key_index(self.devices(), id@);
        }
        if let Some(i) = find_key(&self.devices, id) {
            self.devices[i].1.name = name;
            self.devices[i].1.product_id = product_id;
            self.devices[i].1.connection_type = connection_type;
        }
        assert(self.devices() =~= spec_modify(
            old(self).devices(),
            id@,
            |d: RazerDevice| RazerDevice { name, product_id, connection_type, ..d },
        ));
    }

    /// Records the lighting effect of the device registered under `id`; does
    /// nothing when no device is registered there.
    pub fn update_lighting(&mut self, id: &str, effect: LightingEffect)
        ensures
            final(self).lighting() == (if spec_lookup(old(self).devices(), id@) is Some {
                spec_upsert(old(self).lighting(), id@, effect)
            } else {
                old(self).lighting()
            }),
            final(self).devices() == old(self).devices(),
            final(self).settings() == old(self).settings(),
    {
        if find_key(&self.devices, id).is_some() {
            upsert(&mut self.lighting, id.to_owned(), effect);
        }
    }

    /// The settings persisted for the device registered under `id`.
    pub fn device_settings(&self, id: &str) -> (r: Option<DeviceSettings>)
        ensures
            r == spec_lookup(self.settings(), id@),
    {
        proof {
            lemma_key_index(self.settings(), id@);
        }
        match find_key(&self.settings, id) {
            Some(i) => Some(self.settings[i].1),
            None => None,
        }
    }

    /// All persisted settings with their device identifiers.
    pub fn settings_entries(&self) -> (r: &Vec<(String, DeviceSettings)>)
        ensures
            keyed_view(r@) == self.settings(),
    {
        &self.settings
    }

    /// Sets the lighting preference of `id` in the persisted settings.
    fn set_lighting_pref(&mut self, id: &str, effect: LightingEffect)
        ensures
            final(self).settings() == spec_set_lighting_pref(old(self).settings(), id@, effect),
            final(self).devices() == old(self).devices(),
            final(self).lighting() == old(self).lighting(),
    {
        proof {
            lemma_key_index(self.settings(), id@);
        }
        match find_key(&self.settings, id) {
            Some(i) => {
                self.settings[i].1.lighting = Some(effect);
            },
            None => {
                self.settings.push((id.to_owned(), DeviceSettings { lighting: Some(effect), dpi: None }));
            },
        }
        assert(self.settings() =~= spec_set_lighting_pref(old(self).settings(), id@, effect));
    }

    /// Handles a lighting request for the device registered under `id`.
    ///
    /// For an unknown device nothing changes and `None` is returned (the
    /// request is refused). Otherwise the effect is recorded as the device's
    /// current lighting and persisted as its lighting preference, and the
    /// returned plan names the USB product ID and the report to send (none
    /// when the device does not support the effect).
    pub fn plan_lighting(&mut self, id: &str, effect: LightingEffect) -> (r: Option<LightingPlan>)
        ensures
            match r {
                None => {
                    &&& spec_lookup(old(self).devices(), id@) is None
                    &&& final(self).devices() == old(self).devices()
                    &&& final(self).lighting() == old(self).lighting()
                    &&& final(self).settings() == old(self).settings()
                },
                Some(plan) => {
                    &&& spec_lookup(old(self).devices(), id@) matches Some(d)
                    &&& plan.product_id == spec_usb_pid(d.product_id)
                    &&& match (plan.payload, spec_lighting_request(d.product_id, effect)) {
                        (Some(p), Some(s)) => p@ == s,
                        (None, None) => true,
                        _ => false,
                    }
                    &&& final(self).devices() == old(self).devices()
                    &&& final(self).lighting() == spec_upsert(old(self).lighting(), id@, effect)
                    &&& final(self).settings() == spec_set_lighting_pref(
                        old(self).settings(),
                        id@,
                        effect,
                    )
                },
            },
    {
        proof {
            lemma_key_index(self.devices(), id@);
        }
        let i = match find_key(&self.devices, id) {
            Some(i) => i,
            None => return None,
        };
        let product = self.devices[i].1.product_id;
        let product_id = product.usb_pid();
        let (txn_id, led_id) = lighting_params(&product);
        upsert(&mut self.lighting, id.to_owned(), effect);
        self.set_lighting_pref(id, effect);
        let payload = if product == RazerProductId::KrakenV4Pro {
            match effect {
                LightingEffect::Static(c) => Some(build_kraken_v4_static_payload(c[0], c[1], c[2])),
                _ => None,
            }
        } else {
            Some(effect_payload(txn_id, led_id, &effect))
        };
        Some(LightingPlan { product_id, payload })
    }

    /// Handles a DPI request for the device registered under `id`: `None`
    /// (refused) when the device is unknown or the registry does not
    /// advertise DPI control for it; otherwise the USB product ID and the
    /// report that sets the X and Y DPI with the device's transaction ID.
    pub fn plan_dpi(&self, id: &str, x: u16, y: u16) -> (r: Option<(u16, [u8; REPORT_LEN])>)
        ensures
            match r {
                None => match spec_lookup(self.devices(), id@) {
                    None => true,
                    Some(d) => !spec_has_capability(
                        spec_usb_pid(d.product_id),
                        DeviceCapability::DpiControl,
                    ),
                },
                Some((pid, payload)) => {
                    &&& spec_lookup(self.devices(), id@) matches Some(d)
                    &&& pid == spec_usb_pid(d.product_id)
                    &&& spec_has_capability(pid, DeviceCapability::DpiControl)
                    &&& payload@ == spec_dpi_payload(spec_lighting_params(d.product_id).0, x, y)
                },
            },
    {
        proof {
            lemma_key_index(self.devices(), id@);
        }
        let i = match find_key(&self.devices, id) {
            Some(i) => i,
            None => return None,
        };
        let product = self.devices[i].1.product_id;
        let pid = product.usb_pid();
        if !has_capability(pid, &DeviceCapability::DpiControl) {
            return None;
        }
        let (txn_id, _) = lighting_params(&product);
        Some((pid, build_set_dpi_payload(txn_id, x, y)))
    }

    /// Persists `dpi` as the DPI preference of `id` (after the hardware
    /// accepted it).
    pub fn record_dpi(&mut self, id: &str, dpi: u16)
        ensures
            final(self).settings() == spec_set_dpi_pref(old(self).settings(), id@, dpi),
            final(self).devices() == old(self).devices(),
            final(self).lighting() == old(self).lighting(),
    {
        proof {
            lemma_key_index(self.settings(), id@);
        }
        match find_key(&self.settings, id) {
            Some(i) => {
                self.settings[i].1.dpi = Some(dpi);
            },
            None => {
                self.settings.push((id.to_owned(), DeviceSettings { lighting: None, dpi: Some(dpi) }));
            },
        }
        assert(self.settings() =~= spec_set_dpi_pref(old(self).settings(), id@, dpi));
    }

    /// Handles a sidetone request for the device registered under `id`:
    /// `None` (refused) when the device is unknown or the registry does not
    /// advertise sidetone for it; otherwise the USB product ID and the
    /// sidetone report for `level` clamped to 100.
    pub fn plan_sidetone(&self, id: &str, level: u8) -> (r: Option<(u16, [u8; REPORT_LEN])>)
        ensures
            match r {
                None => match spec_lookup(self.devices(), id@) {
                    None => true,
                    Some(d) => !spec_has_capability(
                        spec_usb_pid(d.product_id),
                        DeviceCapability::Sidetone,
                    ),
                },
                Some((pid, payload)) => {
                    &&& spec_lookup(self.devices(), id@) matches Some(d)
                    &&& pid == spec_usb_pid(d.product_id)
                    &&& spec_has_capability(pid, DeviceCapability::Sidetone)
                    &&& payload@ == razer_report(
                        TRANSACTION_ID_HEADSET,
                        0x01,
                        CMD_CLASS_SENSOR,
                        CMD_ID_SET_SIDETONE,
                        seq![clamp_level(level)],
                    )
                },
            },
    {
        proof {
            lemma_key_index(self.devices(), id@);
        }
        let i = match find_key(&self.devices, id) {
            Some(i) => i,
            None => return None,
        };
        let pid = self.devices[i].1.product_id.usb_pid();
        if !has_capability(pid, &DeviceCapability::Sidetone) {
            return None;
        }
        let clamped = if level > 100 { 100 } else { level };
        Some((pid, build_set_sidetone_payload(clamped)))
    }

    /// Handles a haptic intensity request for the device registered under
    /// `id`: `None` (refused) when the device is unknown or the registry does
    /// not advertise haptic feedback for it. The Kraken V4 Pro hub (0x0568)
    /// gets the 64-byte hub report for `level` clamped to 100, stamped with
    /// the next value of `sequence`; other haptic headsets get the 90-byte
    /// report, and the sequence is left alone.
    pub fn plan_haptic_intensity(&self, id: &str, level: u8, sequence: &mut HapticSequencer) -> (r:
        Option<HapticPlan>)
        ensures
            match r {
                None => {
                    &&& final(sequence).next == old(sequence).next
                    &&& match spec_lookup(self.devices(), id@) {
                        None => true,
                        Some(d) => !spec_has_capability(
                            spec_usb_pid(d.product_id),
                            DeviceCapability::HapticFeedback,
                        ),
                    }
                },
                Some(HapticPlan::HubReport { product_id, report }) => {
                    &&& spec_lookup(self.devices(), id@) matches Some(d)
                    &&& product_id == spec_usb_pid(d.product_id)
                    &&& product_id == 0x0568
                    &&& spec_has_capability(product_id, DeviceCapability::HapticFeedback)
                    &&& report@ == spec_haptic_report(clamp_level(level), old(sequence).next)
                    &&& final(sequence).next as int == (old(sequence).next as int + 1) % 256
                },
                Some(HapticPlan::LegacyReport { product_id, payload }) => {
                    &&& spec_lookup(self.devices(), id@) matches Some(d)
                    &&& product_id == spec_usb_pid(d.product_id)
                    &&& product_id != 0x0568
                    &&& spec_has_capability(product_id, DeviceCapability::HapticFeedback)
                    &&& payload@ == razer_report(
                        TRANSACTION_ID_HEADSET,
                        0x01,
                        CMD_CLASS_SENSOR,
                        CMD_ID_SET_HAPTIC_INTENSITY,
                        seq![clamp_level(level)],
                    )
                    &&& final(sequence).next == old(sequence).next
                },
            },
    {
        proof {
            lemma_key_index(self.devices(), id@);
        }
        let i = match find_key(&self.devices, id) {
            Some(i) => i,
            None => return None,
        };
        let pid = self.devices[i].1.product_id.usb_pid();
        if !has_capability(pid, &DeviceCapability::HapticFeedback) {
            return None;
        }
        let clamped = if level > 100 { 100 } else { level };
        if pid == 0x0568 {
            Some(HapticPlan::HubReport { product_id: pid, report: sequence.next_report(clamped) })
        } else {
            Some(HapticPlan::LegacyReport { product_id: pid, payload: build_set_haptic_payload(clamped) })
        }
    }

    /// The commands that restore every registered device's saved settings
    /// at start-up (see [`spec_restore_commands`]); the caller sends them.
    pub fn apply_saved_settings(&self) -> (r: Vec<DeviceCommand>)
        ensures
            r@.map_values(|c: DeviceCommand| c@) == spec_restore_commands(
                self.devices(),
                self.settings(),
            ),
    {
        let mut out: Vec<DeviceCommand> = Vec::new();
        let mut i: usize = 0;
        let ghost devs = self.devices();
        let ghost sets = self.settings();
        while i < self.devices.len()
            invariant
                i <= self.devices@.len(),
                devs == keyed_view(self.devices@),
                sets == keyed_view(self.settings@),
                out@.map_values(|c: DeviceCommand| c@) == spec_restore_commands(
                    devs.take(i as int),
                    sets,
                ),
            decreases self.devices@.len() - i,
        {
            let ghost before = out@.map_values(|c: DeviceCommand| c@);
            let device_id = &self.devices[i].0;
            let device = &self.devices[i].1;
            proof {
                lemma_key_index(sets, device_id@);
                assert(devs.take(i + 1).drop_last() =~= devs.take(i as int));
                assert(devs.take(i + 1).last() == devs[i as int]);
            }
            if let Some(s) = self.device_settings(device_id.as_str()) {
                let pid = device.product_id.usb_pid();
                let (txn_id, led_id) = lighting_params(&device.product_id);
                if let Some(effect) = s.lighting {
                    out.push(
                        DeviceCommand {
                            device_id: device_id.clone(),
                            product_id: pid,
                            payload: effect_payload(txn_id, led_id, &effect),
                        },
                    );
                }
                if let Some(dpi) = s.dpi {
                    if has_capability(pid, &DeviceCapability::DpiControl) {
                        out.push(
                            DeviceCommand {
                                device_id: device_id.clone(),
                                product_id: pid,
                                payload: build_set_dpi_payload(txn_id, dpi, dpi),
                            },
                        );
                    }
                }
            }
            proof {
                assert(out@.map_values(|c: DeviceCommand| c@) =~= before + spec_device_restore(
                    devs[i as int].0,
                    devs[i as int].1,
                    sets,
                ));
            }
            i = i + 1;
        }
        proof {
            assert(devs.take(i as int) =~= devs);
        }
        out
    }
}

// ── Laws of the device table ─────────────────────────────────────────────────

/// Registering a device makes it the device found under its ID and leaves
/// every other ID's device as it was.
pub proof fn lemma_get_after_add(
    devices: Seq<(Seq<char>, RazerDevice)>,
    id: Seq<char>,
    device: RazerDevice,
    other: Seq<char>,
)
    ensures
        spec_lookup(spec_upsert(devices, id, device), id) == Some(device),
        other != id ==> spec_lookup(spec_upsert(devices, id, device), other) == spec_lookup(
            devices,
            other,
        ),
{
    lemma_lookup_after_upsert(devices, id, device, other);
}

/// A battery update changes only the battery state of the device under its
/// ID (if one is registered) and no other device.
pub proof fn lemma_battery_update(
    devices: Seq<(Seq<char>, RazerDevice)>,
    id: Seq<char>,
    state: BatteryState,
    other: Seq<char>,
)
    ensures
        ({
            let after = spec_modify(
                devices,
                id,
                |d: RazerDevice| RazerDevice { battery_state: state, ..d },
            );
            &&& spec_lookup(after, id) == (match spec_lookup(devices, id) {
                Some(d) => Some(RazerDevice { battery_state: state, ..d }),
                None => None,
            })
            &&& (other != id ==> spec_lookup(after, other) == spec_lookup(devices, other))
        }),
{
    lemma_lookup_after_modify(
        devices,
        id,
        |d: RazerDevice| RazerDevice { battery_state: state, ..d },
        other,
    );
}

/// Persisting a lighting preference stores the effect and keeps the device's
/// DPI preference; other devices' settings are untouched.
pub proof fn lemma_lighting_pref_persisted(
    settings: Seq<(Seq<char>, DeviceSettings)>,
    id: Seq<char>,
    effect: LightingEffect,
    other: Seq<char>,
)
    ensures
        ({
            let after = spec_set_lighting_pref(settings, id, effect);
            let dpi = match spec_lookup(settings, id) {
                Some(s) => s.dpi,
                None => None,
            };
            &&& spec_lookup(after, id) == Some(DeviceSettings { lighting: Some(effect), dpi })
            &&& (other != id ==> spec_lookup(after, other) == spec_lookup(settings, other))
        }),
{
    match spec_lookup(settings, id) {
        Some(s) => lemma_lookup_after_upsert(
            settings,
            id,
            DeviceSettings { lighting: Some(effect), ..s },
            other,
        ),
        None => lemma_lookup_after_upsert(
            settings,
            id,
            DeviceSettings { lighting: Some(effect), dpi: None },
            other,
        ),
    }
}

/// Persisting a DPI preference stores the DPI and keeps the device's
/// lighting preference; other devices' settings are untouched.
pub proof fn lemma_dpi_pref_persisted(
    settings: Seq<(Seq<char>, DeviceSettings)>,
    id: Seq<char>,
    dpi: u16,
    other: Seq<char>,
)
    ensures
        ({
            let after = spec_set_dpi_pref(settings, id, dpi);
            let lighting = match spec_lookup(settings, id) {
                Some(s) => s.lighting,
                None => None,
            };
            &&& spec_lookup(after, id) == Some(DeviceSettings { lighting, dpi: Some(dpi) })
            &&& (other != id ==> spec_lookup(after, other) == spec_lookup(settings, other))
        }),
{
    match spec_lookup(settings, id) {
        Some(s) => lemma_lookup_after_upsert(
            settings,
            id,
            DeviceSettings { dpi: Some(dpi), ..s },
            other,
        ),
        None => lemma_lookup_after_upsert(
            settings,
            id,
            DeviceSettings { lighting: None, dpi: Some(dpi) },
            other,
        ),
    }
}

/// Whether a 90-byte report is a DPI command (class 0x04, command 0x05).
pub open spec fn is_dpi_command(report: Seq<u8>) -> bool {
    report[6] == CMD_CLASS_SENSOR && report[7] == CMD_ID_SET_DPI
}

proof fn lemma_effect_payload_is_lighting(t: u8, led: u8, effect: LightingEffect)
    ensures
        spec_effect_payload(t, led, effect)[6] == CMD_CLASS,
        spec_effect_payload(t, led, effect)[7] == CMD_ID,
{
}

proof fn lemma_device_restore_dpi_capable(
    id: Seq<char>,
    device: RazerDevice,
    settings: Seq<(Seq<char>, DeviceSettings)>,
)
    ensures
        forall|i: int|
            0 <= i < spec_device_restore(id, device, settings).len() && is_dpi_command(
                (#[trigger] spec_device_restore(id, device, settings)[i]).2,
            ) ==> spec_has_capability(
                spec_device_restore(id, device, settings)[i].1,
                DeviceCapability::DpiControl,
            ),
{
    if let Some(s) = spec_lookup(settings, id) {
        let (t, led) = spec_lighting_params(device.product_id);
        if let Some(e) = s.lighting {
            lemma_effect_payload_is_lighting(t, led, e);
        }
    }
}

/// Start-up restore never sends a DPI command to a device whose registry
/// profile does not advertise DPI control.
pub proof fn lemma_restore_dpi_only_to_capable(
    devices: Seq<(Seq<char>, RazerDevice)>,
    settings: Seq<(Seq<char>, DeviceSettings)>,
)
    ensures
        forall|i: int|
            0 <= i < spec_restore_commands(devices, settings).len() && is_dpi_command(
                (#[trigger] spec_restore_commands(devices, settings)[i]).2,
            ) ==> spec_has_capability(
                spec_restore_commands(devices, settings)[i].1,
                DeviceCapability::DpiControl,
            ),
    decreases devices.len(),
{
    if devices.len() > 0 {
        lemma_restore_dpi_only_to_capable(devices.drop_last(), settings);
        let prefix = spec_restore_commands(devices.drop_last(), settings);
        let last = spec_device_restore(devices.last().0, devices.last().1, settings);
        lemma_device_restore_dpi_capable(devices.last().0, devices.last().1, settings);
        let all = spec_restore_commands(devices, settings);
        assert(all == prefix + last);
        assert forall|i: int| 0 <= i < all.len() && is_dpi_command((#[trigger] all[i]).2) implies spec_has_capability(
            all[i].1,
            DeviceCapability::DpiControl,
        ) by {
            if i < prefix.len() {
                assert(all[i] == prefix[i]);
            } else {
                assert(all[i] == last[i - prefix.len()]);
            }
        }
    }
}

// ── Laws of lighting requests and their restore ──────────────────────────────

/// Lighting parameters by product: the Cobra Pro (wired and wireless), and
/// nothing else, uses transaction 0x1F with the zero LED; the BlackWidow V3
/// Mini HyperSpeed uses the backlight LED (0x05) with 0x1F wired and 0x9F
/// wireless; every other product uses transaction 0x3F with the backlight.
pub proof fn lemma_lighting_params_by_product(p: RazerProductId)
    ensures
        (spec_lighting_params(p) == (0x1Fu8, 0x00u8)) <==> (p == RazerProductId::CobraProWired || p
            == RazerProductId::CobraProWireless),
        p == RazerProductId::BlackWidowV3MiniHyperSpeedWired ==> spec_lighting_params(p) == (
            0x1Fu8,
            0x05u8,
        ),
        p == RazerProductId::BlackWidowV3MiniHyperSpeedWireless ==> spec_lighting_params(p) == (
            0x9Fu8,
            0x05u8,
        ),
        !(p == RazerProductId::CobraProWired || p == RazerProductId::CobraProWireless || p
            == RazerProductId::BlackWidowV3MiniHyperSpeedWired || p
            == RazerProductId::BlackWidowV3MiniHyperSpeedWireless) ==> spec_lighting_params(p) == (
            0x3Fu8,
            0x05u8,
        ),
{
}

/// What a 90-byte lighting report for `effect` holds: a valid checksum, the
/// transaction ID at byte 1, class 0x0F and command 0x02 at bytes 6–7,
/// VARSTORE (0x01) at byte 8, the LED at byte 9, the effect code at byte 10
/// (0x01 static, 0x02 breathing, 0x04 spectrum) and, for a colour effect, a
/// colour count of 1 at byte 13 followed by the red, green and blue bytes.
pub open spec fn is_lighting_report(
    report: Seq<u8>,
    transaction_id: u8,
    led_id: u8,
    effect: LightingEffect,
) -> bool {
    &&& report.len() == 90
    &&& checksum_valid(report)
    &&& report[1] == transaction_id
    &&& report[6] == 0x0F && report[7] == 0x02 && report[8] == 0x01
    &&& report[9] == led_id
    &&& match effect {
        LightingEffect::Static(c) => report[10] == 0x01 && report[13] == 1 && report[14] == c[0]
            && report[15] == c[1] && report[16] == c[2],
        LightingEffect::Breathing(c) => report[10] == 0x02 && report[13] == 1 && report[14]
            == c[0] && report[15] == c[1] && report[16] == c[2],
        LightingEffect::Spectrum => report[10] == 0x04,
    }
}

/// The report of an effect with given transaction and LED IDs is a lighting
/// report for that very effect.
pub proof fn lemma_effect_payload_bytes(t: u8, led: u8, effect: LightingEffect)
    ensures
        is_lighting_report(spec_effect_payload(t, led, effect), t, led, effect),
{
    let r = spec_effect_payload(t, led, effect);
    match effect {
        LightingEffect::Static(c) => {
            let args = colour_effect_args(led, EFFECT_STATIC, c[0], c[1], c[2]);
            lemma_report_checksum_valid(t, 0x09, CMD_CLASS, CMD_ID, args);
            let body = report_body(t, 0x09, CMD_CLASS, CMD_ID, args);
            assert(r[10] == body[10] && r[13] == body[13] && r[14] == body[14]);
            assert(r[15] == body[15] && r[16] == body[16] && r[9] == body[9] && r[8] == body[8]);
        },
        LightingEffect::Breathing(c) => {
            let args = colour_effect_args(led, EFFECT_BREATHING_SINGLE, c[0], c[1], c[2]);
            lemma_report_checksum_valid(t, 0x09, CMD_CLASS, CMD_ID, args);
            let body = report_body(t, 0x09, CMD_CLASS, CMD_ID, args);
            assert(r[10] == body[10] && r[13] == body[13] && r[14] == body[14]);
            assert(r[15] == body[15] && r[16] == body[16] && r[9] == body[9] && r[8] == body[8]);
        },
        LightingEffect::Spectrum => {
            let args = seq![VARSTORE, led, EFFECT_SPECTRUM];
            lemma_report_checksum_valid(t, 0x03, CMD_CLASS, CMD_ID, args);
            let body = report_body(t, 0x03, CMD_CLASS, CMD_ID, args);
            assert(r[10] == body[10] && r[9] == body[9] && r[8] == body[8]);
        },
    }
}

/// A lighting request to any product but the Kraken V4 Pro sends a lighting
/// report for the requested effect, with the product's transaction and LED
/// IDs.
pub proof fn lemma_lighting_request_bytes(product_id: RazerProductId, effect: LightingEffect)
    requires
        product_id != RazerProductId::KrakenV4Pro,
    ensures
        spec_lighting_request(product_id, effect) matches Some(r) && is_lighting_report(
            r,
            spec_lighting_params(product_id).0,
            spec_lighting_params(product_id).1,
            effect,
        ),
{
    let (t, led) = spec_lighting_params(product_id);
    lemma_effect_payload_bytes(t, led, effect);
}

/// Start-up restore replays each device's saved lighting: for every
/// registered device with a saved effect there is a restore command for
/// that device and product ID whose report is a lighting report for the
/// saved effect itself, with the product's lighting parameters; for any
/// product but the Kraken V4 Pro it is exactly the report a lighting request
/// for that effect sends.
pub proof fn lemma_restore_replays_saved_lighting(
    devices: Seq<(Seq<char>, RazerDevice)>,
    settings: Seq<(Seq<char>, DeviceSettings)>,
    i: int,
    effect: LightingEffect,
)
    requires
        0 <= i < devices.len(),
        spec_lookup(settings, devices[i].0) matches Some(s) && s.lighting == Some(effect),
    ensures
        ({
            let cmds = spec_restore_commands(devices, settings);
            let product = devices[i].1.product_id;
            exists|k: int|
                0 <= k < cmds.len() && (#[trigger] cmds[k]).0 == devices[i].0 && cmds[k].1
                    == spec_usb_pid(product) && is_lighting_report(
                    cmds[k].2,
                    spec_lighting_params(product).0,
                    spec_lighting_params(product).1,
                    effect,
                ) && (product != RazerProductId::KrakenV4Pro ==> spec_lighting_request(
                    product,
                    effect,
                ) == Some(cmds[k].2))
        }),
    decreases devices.len(),
{
    let cmds = spec_restore_commands(devices, settings);
    let product = devices[i].1.product_id;
    let prefix = spec_restore_commands(devices.drop_last(), settings);
    let last = spec_device_restore(devices.last().0, devices.last().1, settings);
    assert(cmds == prefix + last);
    let (t, led) = spec_lighting_params(product);
    lemma_effect_payload_bytes(t, led, effect);
    if i == devices.len() - 1 {
        let k = prefix.len() as int;
        assert(last[0] == (devices[i].0, spec_usb_pid(product), spec_effect_payload(t, led, effect)));
        assert(cmds[k] == last[0]);
    } else {
        lemma_restore_replays_saved_lighting(devices.drop_last(), settings, i, effect);
        assert(devices.drop_last()[i] == devices[i]);
        let k = choose|k: int|
            0 <= k < prefix.len() && (#[trigger] prefix[k]).0 == devices[i].0 && prefix[k].1
                == spec_usb_pid(product) && is_lighting_report(
                prefix[k].2,
                spec_lighting_params(product).0,
                spec_lighting_params(product).1,
                effect,
            ) && (product != RazerProductId::KrakenV4Pro ==> spec_lighting_request(product, effect)
                == Some(prefix[k].2));
        assert(cmds[k] == prefix[k]);
    }
}

} // verus!
