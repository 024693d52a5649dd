[package]
name = "packet_trace"
version = "0.1.0"
edition = "2021"
publish = false

[dependencies]
chrono = { version = "0.4", default-features = false, features = ["clock"] }
fxhash = "0.2"
log = "0.4"

[dev-dependencies]
regex = "1"
