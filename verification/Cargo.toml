[package]
name = "velopack_bins"
version = "0.1.0"
edition = "2021"
publish = false

[dependencies]
anyhow = "=1.0.104"
clap = { version = "=4.6.7", features = ["derive"] }
image = { version = "=0.25.10", default-features = false, features = ["png"] }
semver = "=1.0.28"
walkdir = "=2.5.0"
zip = { version = "=2.6.1", default-features = false, features = ["deflate"] }
windows = { version = "=0.62.2", features = ["Win32_Foundation", "Win32_Graphics_Dwm", "Win32_Graphics_Gdi", "Win32_Graphics_GdiPlus", "Win32_System_Registry", "Win32_UI_WindowsAndMessaging"] }
winsafe = { version = "=0.0.29", features = ["gui", "shell", "comctl", "gdi"] }
