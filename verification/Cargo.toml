[package]
name = "synaptix"
version = "0.1.0"
edition = "2021"
publish = false

[dependencies]
rusb = { version = "0.9", features = ["vendored"] }
zbus = "5"
tokio = { version = "1", features = ["rt-multi-thread", "macros", "sync", "time"] }
serde = { version = "1", features = ["derive"] }
serde_json = "1"
log = "0.4"
env_logger = "*"
directories = "*"
futures-util = "0.3"
gtk = "0.18"
glib = "0.18"
tray-icon = "*"
image = { version = "*", default-features = false }
notify-rust = "*"
clap = { version = "4", features = ["derive"] }
