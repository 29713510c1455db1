[package]
name = "dual_ad"
version = "0.1.0"
edition = "2021"
publish = false

[dependencies]
nalgebra = { version = "0.33", default-features = false, features = ["std"] }
num-traits = "0.2"
approx = "0.5"
simba = "0.9"
