[package]
name = "borderless"
version = "0.1.0"
edition = "2021"
publish = false

[dependencies]
slint = { version = "=1.18.1", default-features = false, features = ["std", "compat-1-2"] }
windows = { version = "=0.58.0", features = ["Win32_Foundation", "Win32_Graphics_Dwm", "Win32_UI_Controls", "Win32_UI_Shell", "Win32_UI_WindowsAndMessaging"] }
windows-sys = { version = "=0.61.2", features = ["Win32_Foundation", "Win32_UI_HiDpi", "Win32_UI_WindowsAndMessaging"] }
window-vibrancy = "=0.8.1"
tracing = "=0.1.44"
