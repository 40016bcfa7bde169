[package]
name = "basilisk"
version = "0.1.0"
edition = "2021"
publish = false

[dependencies]
sp-arithmetic = { version = "*", default-features = false, features = ["std"] }
hydra-dx-math = "*"
serde = { version = "1", features = ["derive"] }
parity-scale-codec = { version = "3", features = ["derive"] }
scale-info = { version = "2", features = ["derive"] }
