[package]
name = "colhidor"
version = "0.1.0"
edition = "2021"
publish = false

[dependencies]
blake3 = "1"
bincode = "1"
serde = { version = "1", features = ["derive"] }
serde_json = "1"
chrono = "0.4"
hostname = "*"
sysinfo = "*"
tokio = { version = "1", features = ["rt", "time", "macros"] }
bpaf = "*"
rusqlite = "*"
procfs = "*"
rumqttc = { version = "*", default-features = false }
