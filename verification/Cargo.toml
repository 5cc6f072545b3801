[package]
name = "headset_battery_indicator"
version = "0.1.0"
edition = "2021"
publish = false

[dependencies]
sys-locale = "0.3"
anyhow = "1"
log = "0.4"
simplelog = "0.12"
serde = { version = "1", features = ["derive"] }
ureq = { version = "3", features = ["json"] }
libc = "0.2"
tray-icon = "*"
winit = "0.30"
windows = { version = "*", default-features = false, features = ["Win32_Foundation", "Win32_System_LibraryLoader"] }
