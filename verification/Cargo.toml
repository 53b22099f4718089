[package]
name = "larus_core"
version = "0.1.0"
edition = "2021"
publish = false

[dependencies]
byteorder = { version = "1", default-features = false }
heapless = "0.8"
num = { version = "0.4", default-features = false }
micromath = "2"
portable-atomic = "1"
