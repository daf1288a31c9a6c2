[package]
name = "reshape_core"
version = "0.1.0"
edition = "2021"
publish = false

[dependencies]
anyhow = "1"
postgres = "0.19"
serde = { version = "1", features = ["derive"] }
typetag = "0.2"
derive_builder = "0.20"
