[package]
name = "hexahedron"
version = "0.1.0"
edition = "2021"
publish = false

[dependencies]
sha2 = "*"
blake3 = { version = "*", features = ["pure"] }
twox-hash = "*"
glam = "*"
rand = "*"
spin_sleep = "*"
