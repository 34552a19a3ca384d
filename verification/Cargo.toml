[package]
name = "tracker_core"
version = "0.1.0"
edition = "2021"
publish = false

[dependencies]
atat = "*"
heapless = "*"
chrono = { version = "*", default-features = false }
serde = { version = "*", default-features = false, features = ["derive"] }
serde-json-core = "*"
