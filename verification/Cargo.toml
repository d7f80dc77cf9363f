[package]
name = "kidstime"
version = "0.1.0"
edition = "2021"
publish = false

[dependencies]
chrono = "=0.4.45"
sha2 = "=0.10.9"
uuid = { version = "=1.29.0", features = ["v4"] }
serde = { version = "=1.0.229", features = ["derive"] }
serde_json = "=1.0.154"
axum = "=0.7.9"
tokio = { version = "=1.54.1", features = ["full"] }
tokio-tungstenite = "=0.24.0"
futures-util = { version = "=0.3.34", features = ["sink"] }
ureq = "=2.12.1"
eframe = { version = "=0.29.1", default-features = false, features = ["glow", "x11", "default_fonts"] }
windows = { version = "=0.52.0", features = ["Win32_Foundation", "Win32_System_Diagnostics_ToolHelp", "Win32_System_Shutdown", "Win32_UI_WindowsAndMessaging"] }
