[package]
name = "ruwm"
version = "0.1.0"
edition = "2021"
publish = false

[dependencies]
heapless = "0.7"
embedded-hal = "0.2"
embedded-graphics = "*"
profont = "*"
enumset = "1"
serde = { version = "1", features = ["derive"] }
log = "0.4"
embassy-futures = "*"
embassy-sync = "*"
channel-bridge = "*"
embedded-svc = "*"
smol = "*"
