[package]
name = "tray_overlay"
version = "0.1.0"
edition = "2021"
publish = false

[dependencies]
anyhow = "=1.0.104"
futures = "=0.3.34"
raw-window-handle = "=0.6.2"
smol = "=2.0.2"
tray-icon = { version = "=0.26.1", default-features = false, features = ["ksni"] }
windows = { version = "=0.62.2", features = ["Win32_Foundation", "Win32_UI_Shell", "Win32_UI_WindowsAndMessaging"] }
