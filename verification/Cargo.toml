[package]
name = "ime_observer"
version = "0.1.0"
edition = "2021"
publish = false

[dependencies]
once_cell = "=1.21.4"
dbus = { version = "=0.9.12", features = ["vendored"] }
core-foundation = "=0.10.1"
core-foundation-sys = "=0.8.7"
windows = { version = "=0.59.0", features = ["Win32_Foundation", "Win32_Globalization", "Win32_Graphics_Gdi", "Win32_System_LibraryLoader", "Win32_System_SystemServices", "Win32_Devices_HumanInterfaceDevice", "Win32_UI_Accessibility", "Win32_UI_Input", "Win32_UI_Input_Ime", "Win32_UI_Input_KeyboardAndMouse", "Win32_UI_WindowsAndMessaging"] }
