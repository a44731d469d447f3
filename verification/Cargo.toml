[package]
name = "win_log"
version = "0.1.0"
edition = "2021"
publish = false

[dependencies]
serde = { version = "1", features = ["derive"] }
serde_json = "1"
lazy_static = "1"
async-std = "1"
crossbeam-channel = "0.5"
crossbeam-utils = "0.8"
arc-swap = "1"
rand = "0.8"
iced = "0.3"
windows = { version = "0.28", features = ["Win32_Foundation", "Win32_System_Registry", "Win32_System_EventLog", "Win32_Security", "Win32_System_Threading"] }
