[package]
name = "bios_boot"
version = "0.1.0"
edition = "2021"
publish = false

[dependencies]
anyhow = "1.0"
log = "0.4"
openat = "0.1"
serde = { version = "1.0", features = ["derive"] }
serde_json = "1.0"
