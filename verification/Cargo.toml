[package]
name = "posture_ai_oc"
version = "0.1.0"
edition = "2021"
publish = false

[dependencies]
anyhow = "*"
image = "*"
minifb = "*"
ndarray = "*"
nokhwa = "*"
ort = "=2.0.0-rc.13"
tray-icon = "*"
windows = { version = "*", features = ["Win32_Foundation", "Win32_System_LibraryLoader", "Win32_UI_WindowsAndMessaging"] }
