[package]
name = "ssh_sessions"
version = "0.1.0"
edition = "2021"
publish = false

[dependencies]
parking_lot = "0.12"
serde = { version = "1", features = ["derive"] }
ssh2 = "0.9"
sysinfo = { version = "0.30", default-features = false }
tokio = { version = "1", default-features = false, features = ["rt", "time"] }
