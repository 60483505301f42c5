[package]
name = "komodo_core"
version = "0.1.0"
edition = "2021"
publish = false

[dependencies]
anyhow = "1"
bson = "2"
derive_builder = "0.20"
indexmap = { version = "2", features = ["serde"] }
partial_derive2 = "*"
rand = "0.9"
serde = { version = "1", features = ["derive"] }
strum = { version = "0.27", features = ["derive"] }
typeshare = "1"
