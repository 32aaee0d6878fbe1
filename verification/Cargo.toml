[package]
name = "yap_core"
version = "0.1.0"
edition = "2021"
publish = false

[dependencies]
serde = { version = "1", features = ["derive"] }
serde_json = "1"
tokio = { version = "1", features = ["rt", "time"] }
reqwest = { version = "0.12", default-features = false, features = ["json", "rustls-tls"] }
dirs = "*"
once_cell = "1"
chrono = "0.4"
hound = "3"
enigo = "*"
rodio = "0.20"
whisper-rs = "*"
raw-window-handle = "0.6"
