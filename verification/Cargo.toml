[package]
name = "ping_rs"
version = "0.1.0"
edition = "2021"
publish = false

[dependencies]
socket2 = "*"
mio = { version = "*", features = ["os-poll", "os-ext"] }
futures = { version = "*", features = ["executor"] }
