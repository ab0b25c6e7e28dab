[package]
name = "hexforge_companion"
version = "0.6.0"
edition = "2021"
publish = false

[dependencies]
dirs = "5"
dotenvy = "0.15"
reqwest = { version = "0.12", default-features = false, features = ["json", "rustls-tls"] }
rusqlite = { version = "0.31", features = ["bundled"] }
serde = { version = "1", features = ["derive"] }
serde_json = "1"
sysinfo = "*"
windows = { version = "*", features = ["Win32_Foundation", "Win32_UI_WindowsAndMessaging"] }
