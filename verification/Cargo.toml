[package]
name = "hachimi"
version = "0.1.0"
edition = "2021"
publish = false

[dependencies]
egui = "=0.29.1"
filetime = "=0.2.29"
libc = "=0.2.191"
once_cell = "=1.21.4"
windows = { version = "=0.58.0", features = ["Win32_Foundation", "Win32_UI_WindowsAndMessaging", "Win32_Graphics_Gdi", "Win32_System_Threading", "Win32_System_LibraryLoader"] }
