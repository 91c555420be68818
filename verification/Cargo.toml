[package]
name = "rdl_tray"
version = "0.1.0"
edition = "2021"
publish = false

[dependencies]
base64 = "0.22"
directories = "5"
regex = "1"
serde = { version = "1", features = ["derive"] }
serde_json = "1"
thiserror = "1"
windows = { version = "0.58", features = ["Win32_Foundation", "Win32_System_DataExchange", "Win32_System_Memory", "Win32_System_Ole", "Win32_System_LibraryLoader", "Win32_UI_WindowsAndMessaging", "Win32_UI_Shell", "Win32_Security_Cryptography", "Win32_Graphics_Gdi"] }
