[package]
name = "rustgie_types"
version = "0.1.0"
edition = "2021"
publish = false

[dependencies]
anyhow = "1"
enumflags2 = "0.7"
serde = { version = "1", features = ["derive"] }
serde_repr = "0.1"
serde_with = "3"
