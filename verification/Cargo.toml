[package]
name = "axotyped"
version = "0.2.0"
edition = "2021"
publish = false

[dependencies]
axum = { version = "0.8", default-features = false }
proc-macro2 = "1"
quote = "1"
syn = { version = "2", features = ["full", "extra-traits"] }
ts-rs = "12"

[dev-dependencies]
tower-service = "0.3"
