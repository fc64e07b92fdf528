[package]
name = "grumpkin_codec"
version = "0.1.0"
edition = "2021"
publish = false

[dependencies]
halo2curves = "*"
ff = "0.13"
group = "0.13"
hex = { version = "0.4", features = ["serde"] }
serde = "1"
