[package]
name = "pchain_compile"
version = "0.4.2"
edition = "2021"
publish = false

[dependencies]
bollard = "=0.15.0"
cargo = "=0.68.0"
cargo-util = "=0.2.3"
cargo_toml = "=0.15.3"
clap = { version = "=4.6.7", features = ["derive"] }
dunce = "=1.0.5"
faccess = "=0.2.4"
flate2 = "=1.1.10"
futures-util = "=0.3.34"
kstring = "=2.0.0"
rand = "=0.8.8"
tar = "=0.4.46"
tokio = { version = "=1.54.1", features = ["full"] }
walrus = "=0.12.0"
wasm-opt = "=0.116.1"
wasm-snip = "=0.4.0"
