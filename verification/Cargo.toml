[package]
name = "bus_channels"
version = "0.1.0"
edition = "2021"
publish = false

[dependencies]
act-zero = "=0.4.0"
async-nats = "0.9"
async-trait = "0.1"
bytes = { version = "=1.12.1", features = ["serde"] }
log = "0.4"
serde = { version = "1", features = ["derive"] }
thiserror = "1"
