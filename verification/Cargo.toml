[package]
name = "fasthash"
version = "0.3.0"
edition = "2021"
publish = false

[dependencies]
extprim = "1"
rand = "0.3"
xoroshiro128 = "0.3"
