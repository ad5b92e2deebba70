[package]
name = "lumina"
version = "0.3.6"
edition = "2021"
publish = false

[dependencies]
adblock = "0.10"
anyhow = "=1.0.104"
atty = "=0.2.14"
base64 = "=0.22.1"
chrono = "=0.4.45"
colored = "=2.2.0"
futures-util = "=0.3.34"
image = { version = "=0.25.10", default-features = false, features = ["png", "jpeg", "ico", "gif", "webp", "bmp"] }
mlua = { version = "=0.10.5", features = ["lua54", "vendored"] }
nom = "=7.1.3"
reqwest = { version = "=0.12.28", default-features = false, features = ["stream", "rustls-tls"] }
rusqlite = { version = "=0.32.1", features = ["bundled"] }
rustyline = "=14.0.0"
serde = { version = "=1.0.229", features = ["derive"] }
serde_json = "=1.0.154"
tokio = { version = "=1.54.1", features = ["fs", "io-util", "macros", "rt", "sync", "time"] }
url = "=2.5.8"
urlencoding = "=2.1.3"
windows = { version = "=0.58.0", features = ["Win32_Foundation", "Win32_System_Diagnostics_Debug", "Win32_System_SystemInformation", "Win32_UI_WindowsAndMessaging"] }
