[package]
name = "bms_gateway"
version = "0.1.0"
edition = "2021"
publish = false

[dependencies]
crc = "*"
chrono = "*"
reqwest = { version = "*", default-features = false }
tokio = { version = "*", features = ["rt-multi-thread", "macros", "net", "io-util", "time"] }
