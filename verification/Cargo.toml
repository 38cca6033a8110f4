[package]
name = "irefined_launcher"
version = "0.1.0"
edition = "2021"
publish = false

[dependencies]
anyhow = "=1.0.104"
configparser = "=3.3.0"
dirs = "=7.0.0"
futures-util = "=0.3.34"
image = { version = "=0.25.10", default-features = false, features = ["ico"] }
lazy_static = "=1.5.1"
reqwest = { version = "=0.13.5", default-features = false, features = ["json"] }
rfd = "=0.17.2"
serde = { version = "=1.0.229", features = ["derive"] }
serde_json = "=1.0.154"
tao = "=0.37.2"
tokio = { version = "=1.54.1", features = ["rt-multi-thread", "macros", "time", "sync"] }
tokio-tungstenite = "=0.30.0"
tray-icon = "=0.26.1"
velopack = "=1.2.161"
webbrowser = "=1.2.5"
windows = { version = "=0.62.2", features = ["Win32_Foundation", "Win32_System_Com", "Win32_UI_Shell", "Win32_UI_WindowsAndMessaging"] }
