[package]
name = "chipdb"
version = "0.1.0"
edition = "2021"
publish = false

[dependencies]
miniz_oxide = "*"

[dev-dependencies]
bincode = { version = "2", features = ["serde"] }
serde = "1"
