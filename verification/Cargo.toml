[package]
name = "launch_inject"
version = "0.1.0"
edition = "2021"
publish = false

[dependencies]
clap = { version = "=4.6.7", features = ["derive"] }
serde = { version = "=1.0.229", features = ["derive"] }
thiserror = "=2.0.21"
toml = "=1.1.8"
tracing = "=0.1.44"
tracing-subscriber = "=0.3.23"
windows = { version = "=0.58.0", features = ["Win32_Foundation", "Win32_Security", "Win32_System_Threading", "Win32_System_Memory", "Win32_System_LibraryLoader", "Win32_System_Diagnostics_Debug", "Win32_UI_WindowsAndMessaging"] }
