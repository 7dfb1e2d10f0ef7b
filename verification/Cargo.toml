[package]
name = "tanakai"
version = "0.1.0"
edition = "2021"
publish = false

[dependencies]
aes-gcm = "=0.10.3"
anyhow = "=1.0.104"
base64 = "=0.21.7"
byteorder = "=1.5.0"
bytes = "=1.12.1"
clap = { version = "=4.6.7", features = ["derive"] }
eframe = { version = "0.22", default-features = false, features = ["glow", "default_fonts"] }
egui = "0.22"
env_logger = "=0.10.2"
log = "=0.4.34"
once_cell = "=1.21.4"
open = "5"
pcap = "=1.3.0"
reqwest = { version = "=0.11.27", features = ["json"] }
semver = "=1.0.28"
serde = { version = "=1.0.229", features = ["derive"] }
serde_json = "=1.0.154"
sha2 = "=0.10.9"
sysinfo = "=0.29.11"
tokio = { version = "=1.54.1", features = ["full"] }
windows-sys = { version = "0.48", features = ["Win32_Foundation", "Win32_UI_WindowsAndMessaging", "Win32_System_Threading"] }
