[package]
name = "iio_niri"
version = "0.1.0"
edition = "2021"
publish = false

[dependencies]
anyhow = "1"
clap = { version = "4", features = ["derive"] }
clap_complete = "4"
clap-verbosity-flag = "3"
dbus = "0.9"
env_logger = "0.11"
log = "0.4"
niri-ipc = { version = "25.8.0", features = ["clap"] }
serde = { version = "1", features = ["derive"] }
serde_json = { version = "1", features = ["preserve_order"] }
signal-hook = "0.3"
