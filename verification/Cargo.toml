[package]
name = "ironlicensing"
version = "0.1.0"
edition = "2021"
publish = false

[dependencies]
dirs = "5"
hostname = "0.4"
once_cell = "1"
parking_lot = "0.12"
reqwest = { version = "0.12", features = ["blocking", "json"] }
serde = { version = "1", features = ["derive"] }
serde_json = "1"
thiserror = "1"
uuid = { version = "1", features = ["v4"] }
