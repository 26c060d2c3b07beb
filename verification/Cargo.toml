[package]
name = "invarch"
version = "0.1.0"
edition = "2021"
publish = false

[dependencies]
parity-scale-codec = { version = "3", features = ["derive"] }
scale-info = { version = "2", features = ["derive"] }
primitive-types = "*"
sp-arithmetic = "*"
sp-core = "*"
sp-io = "*"
sp-runtime = "*"
