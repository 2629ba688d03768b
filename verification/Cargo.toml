[package]
name = "hidraw_rs"
version = "0.1.0"
edition = "2021"
publish = false

[dependencies]
libc = "*"
rustix = { version = "*", features = ["event", "fs", "time"] }
serde = { version = "*", features = ["derive"] }
thiserror = "*"
tokio = { version = "*", features = ["fs", "io-util", "rt", "time"] }
