[package]
name = "pso_vdf"
version = "0.1.0"
edition = "2021"
publish = false

[dependencies]
ark-bls12-381 = "0.5"
ark-ff = "0.5"
ark-serialize = "0.5"
sha2 = "0.10"
serde = { version = "1", features = ["derive"] }
thiserror = "2"
