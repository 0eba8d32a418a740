[package]
name = "microbus"
version = "0.1.0"
edition = "2021"
publish = false

[dependencies]
anyhow = "1"
async-trait = "0.1"
inventory = "0.3"
parking_lot = "0.12"
proc-macro2 = "1"
quote = "1"
smallvec = "1"
syn = { version = "2", features = ["full"] }
tokio = { version = "1", features = ["macros", "rt", "rt-multi-thread", "sync", "time"] }
tracing = "0.1"
