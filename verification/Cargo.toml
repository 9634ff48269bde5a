[package]
name = "storage_override"
version = "0.1.0"
edition = "2021"
publish = false

[dependencies]
sp-core-hashing = "*"

[dev-dependencies]
parity-scale-codec = "*"
primitive-types = { version = "*", features = ["impl-codec"] }
