[package]
name = "centrifuge_pallets"
version = "0.1.0"
edition = "2021"
publish = false

[dependencies]
sp-arithmetic = "*"
parity-scale-codec = { version = "*", features = ["derive"] }
scale-info = { version = "*", features = ["derive"] }
sp-core-hashing = "*"

[dev-dependencies]
hex = "*"
