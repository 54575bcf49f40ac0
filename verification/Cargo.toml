[package]
name = "mountain-mqtt-embassy"
version = "0.1.0"
edition = "2021"
publish = false

[dependencies]
defmt = "0.3"
embassy-futures = "=0.1.2"
embassy-net = { version = "0.7", features = ["tcp", "proto-ipv4", "medium-ethernet"] }
embassy-sync = "0.7"
embassy-time = { version = "0.5", features = ["std"] }
heapless = "=0.8.0"
log = "=0.4.35"
mountain-mqtt = { version = "=0.2.0", default-features = false, features = ["embedded-io-async", "embedded-hal-async", "defmt"] }
