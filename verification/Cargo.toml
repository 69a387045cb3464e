[package]
name = "deskbridge"
version = "0.1.0"
edition = "2021"
publish = false

[dependencies]
image = { version = "=0.25.10", default-features = false, features = ["png", "jpeg", "bmp", "tiff"] }
libc = "=0.2.191"
serde = { version = "=1.0.229", features = ["derive"] }
windows-sys = { version = "=0.59.0", features = ["Win32_Foundation", "Win32_System_LibraryLoader", "Win32_UI_Input", "Win32_UI_Input_KeyboardAndMouse", "Win32_UI_WindowsAndMessaging"] }
core-foundation = "=0.10.1"
