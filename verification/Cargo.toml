[package]
name = "serde_dyn"
version = "0.1.0"
edition = "2021"
publish = false

[dependencies]
fnv = "1"
serde = "1"
type-uuid = "0.1"

[dev-dependencies]
ron = "*"
