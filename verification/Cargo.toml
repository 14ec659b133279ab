[package]
name = "rdc_sessions"
version = "0.1.0"
edition = "2021"
publish = false

[dependencies]
windows-sys = { version = "*", features = ["Win32_Foundation", "Win32_System_RemoteDesktop", "Win32_System_SystemInformation"] }
