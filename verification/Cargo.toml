[package]
name = "controlay"
version = "0.1.0"
edition = "2021"
publish = false

[dependencies]
semver = "1"
vigem-rust = "0.2"
serde = { version = "1", features = ["derive"] }
serde_json = "1"
tokio = { version = "1", features = ["rt-multi-thread", "macros", "sync", "net", "time"] }
anyhow = "1"
hostname = "0.4"
reqwest = { version = "0.12", default-features = false, features = ["blocking", "json", "rustls-tls"] }
notify-rust = { version = "4", default-features = false, features = ["d"] }
single-instance = "0.3"
native-dialog = "0.9"
eframe = { version = "0.37", default-features = false, features = ["glow", "default_fonts", "x11"] }
egui = { version = "0.37", default-features = false, features = ["default_fonts"] }
egui_commonmark = { version = "0.26", default-features = false }
