[package]
name = "run_counter"
version = "0.1.0"
edition = "2021"
publish = false

[dependencies]
object = { version = "*", default-features = false, features = ["read"] }
memmap2 = "*"
anyhow = "*"
