[package]
name = "record_index"
version = "0.1.0"
edition = "2021"
publish = false

[dependencies]
redis = { version = "*", default-features = false }
uuid = { version = "*", features = ["v4"] }
bincode = { version = "0.6", default-features = false, features = ["rustc-serialize"] }
rustc-serialize = "0.3"
