//! Verified core of a Razer peripheral daemon: device model, device
//! registry, USB HID report builders and parsers, and the decisions the
//! daemon and its tray icon take on battery and connection updates.

pub mod keyed;
pub mod protocol;
pub mod registry;
pub mod razer_protocol;
pub mod device_manager;
pub mod text;
pub mod tray;
pub mod daemon;
pub mod usb_logic;
pub mod probe;
pub mod config;
pub mod audio;
