[package]
name = "gb_mmio"
version = "0.1.0"
edition = "2021"
publish = false

[dependencies]
try-from-discrim = "*"
