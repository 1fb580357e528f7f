[package]
name = "elysium"
version = "0.1.0"
edition = "2021"
publish = false

[dependencies]
sp-arithmetic = "*"
sp-weights = "*"
primitive-types = "*"
parity-scale-codec = "*"
smallvec = "*"
