[package]
name = "hidmon"
version = "0.1.0"
edition = "2021"
publish = false

[dependencies]
errno = "=0.3.14"
rand = "=0.9.5"
thiserror = "=2.0.21"
windows = { version = "0.59", features = ["Win32_Foundation", "Win32_UI_WindowsAndMessaging"] }
