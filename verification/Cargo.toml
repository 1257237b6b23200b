[package]
name = "evse_coordinator"
version = "0.1.0"
edition = "2021"
publish = false

[dependencies]
serde = { version = "1", features = ["derive"] }
serde_json = "1"
strum = "0.26"
strum_macros = "0.26"
time = { version = "0.3", features = ["serde", "formatting", "parsing"] }
