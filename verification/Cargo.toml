[package]
name = "igloo_esphome"
version = "0.1.0"
edition = "2021"
publish = false

[dependencies]
snow = "*"
base64 = "*"
rust-ini = "*"
