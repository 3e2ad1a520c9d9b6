[package]
name = "revmup"
version = "0.1.0"
edition = "2021"
publish = false

[dependencies]
revm = { version = "=19.7.0", default-features = false, features = ["std"] }
ethers-core = { version = "=2.0.14", default-features = false }
hex = "=0.4.3"
rand = "=0.8.8"
eyre = "=0.6.14"
clap = { version = "=4.6.7", features = ["derive"] }
