[package]
name = "tokio_serial"
version = "0.1.0"
edition = "2021"
publish = false

[dependencies]
futures = "0.3"
mio-serial = { version = "5", default-features = false }
serialport = { version = "4", default-features = false }
tokio = { version = "1", features = ["net"] }
