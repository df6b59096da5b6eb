[package]
name = "ems_control"
version = "0.1.0"
edition = "2021"
publish = false

[dependencies]
modbus = "*"
socketcan = "*"
serde = { version = "*", features = ["derive"] }
serde_json = "*"
