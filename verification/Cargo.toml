[package]
name = "elor"
version = "1.2.0"
edition = "2021"
publish = false

[dependencies]
serde = { version = "1", features = ["derive"] }
rand = "0.8"
futures = "0.3"
quote = "1"
proc-macro2 = "1"
