[package]
name = "zustdpipe"
version = "0.1.0"
edition = "2021"
publish = false

[dependencies]
wasmtime = "=47.0.4"
wasmtime-wasi = "=47.0.4"
arrow = "=60.0.0"
uuid = { version = "=1.27.0", features = ["v4"] }
serde = { version = "=1.0.229", features = ["derive"] }
serde_yaml = "=0.9.34"
structopt = "=0.3.26"

[dev-dependencies]
regex = "=1.13.1"
