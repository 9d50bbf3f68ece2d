[package]
name = "enarx_cli"
version = "0.1.0"
edition = "2021"
publish = false

[dependencies]
url = "=2.5.8"
anyhow = "=1.0.104"
log = "=0.4.34"
env_logger = "=0.11.11"
structopt = "=0.3.26"
tokio = { version = "=1.54.1", features = ["full"] }
tonic = "=0.14.6"
tonic-prost = "0.14"
prost = "0.14"
tower = { version = "=0.5.3", features = ["util"] }
hyper-util = { version = "=0.1.21", features = ["tokio"] }
async-stream = "=0.3.6"
futures-util = "=0.3.34"
wasmparser = "=0.262.0"
