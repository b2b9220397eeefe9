[package]
name = "sys_validate"
version = "0.1.0"
edition = "2021"
publish = false

[dependencies]
blake2b_simd = "*"
serde = { version = "*", features = ["derive"] }
rmp-serde = "*"

[dev-dependencies]
chrono = "*"
