[package]
name = "wnf"
version = "0.1.0"
edition = "2021"
publish = false

[dependencies]
thiserror = "=1.0.69"
uuid = "=1.29.0"
bytemuck = "=1.25.2"
zerocopy = "=0.8.63"
tempfile = "=3.27.0"
interprocess = "=1.2.1"
windows = { version = "=0.48.0", features = ["Win32_Foundation", "Win32_Security", "Win32_Security_Authorization", "Win32_System_Memory", "Win32_System_Threading", "Win32_System_SystemServices", "Win32_System_Registry", "Win32_UI_Shell", "Win32_System_Com"] }
