# synaptix

A daemon for Razer peripherals on Linux (Cobra Pro mouse, BlackWidow V3 Mini
HyperSpeed keyboard, Kraken V4 Pro headset): it polls batteries, applies
lighting, DPI, sidetone and haptic settings over USB HID, serves
`org.synaptix.Daemon` on the D-Bus session bus and shows a tray icon.

The library (`src/`) is written in Verus and carries its proofs:

- `protocol`, `registry` — the device model and the table of known USB
  product IDs with their names, types, capabilities and control interfaces.
- `razer_protocol` — the 90-byte command report and the 64-byte Kraken V4 Pro
  hub report: builders, response validation, battery parsers, checksums.
- `keyed`, `device_manager` — the device table behind the D-Bus interface
  and the USB commands each request and the start-up restore turn into.
- `daemon`, `usb_logic` — what the polling loops and the battery query decide
  from each USB or sysfs reading.
- `tray` — tray labels, tooltip, icon pixels and low-battery notifications.
- `config` — the persisted haptic level document.
- `audio` — finding the headset's PipeWire sink in `wpctl status` output.
- `probe` — the reports and sweeps of the protocol discovery probe.
- `text` — number formatting and character-level scanning.

`app/` is the program around it: USB access with `rusb`, sysfs and config
files, the `zbus` service, the tokio polling loops, the GTK tray, and the
`synaptix probe` command.
