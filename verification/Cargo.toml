[package]
name = "drogue-device"
version = "0.1.0"
edition = "2021"
publish = false

[dependencies]
heapless = "=0.8.0"
critical-section = { version = "=1.2.0", features = ["std"] }
embassy-sync = "=0.6.2"
embedded-hal = { version = "=0.2.7", features = ["unproven"] }
cortex-m = "=0.7.10"
log = "=0.4.34"
