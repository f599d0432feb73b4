[package]
name = "wasmdbg"
version = "0.1.0"
edition = "2021"
publish = false

[dependencies]
bwasm = "*"
parity-wasm = "*"
thiserror = "1"
clap = "2"
tokio = { version = "1", features = ["rt-multi-thread", "macros"] }
tonic = "0.8"
prost = "0.11"
