[package]
name = "capswitch"
version = "0.1.0"
edition = "2021"
publish = false

[dependencies]
windows = { version = "0.52", features = ["Win32_Foundation", "Win32_System_Threading", "Win32_UI_Input_KeyboardAndMouse", "Win32_UI_TextServices", "Win32_UI_WindowsAndMessaging"] }
winreg = "0.52"
tray-icon = "0.19"
image = { version = "0.25", default-features = false, features = ["png"] }
