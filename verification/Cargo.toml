[package]
name = "pilka"
version = "0.1.0"
edition = "2021"
publish = false

[dependencies]
anyhow = "1"
ash = "0.38"
chrono = "0.4"
crossbeam-channel = "0.5"
log = "0.4"
png = "0.17"
winit = "0.30"
