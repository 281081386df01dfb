[package]
name = "ehce"
version = "0.1.0"
edition = "2021"
publish = false

[dependencies]
serde = { version = "=1.0.229", features = ["derive"] }
serde_json = "=1.0.154"
serde_json5 = "=0.2.1"
toml = "=0.9.12"
serde_norway = "=0.9.42"
serde_path_to_error = "=0.1.20"
schemars = "=1.2.3"
num-traits = "=0.2.19"
thiserror = "=2.0.21"
float-ord = "=0.3.2"
weighted_rand = "=0.4.2"
rand = "=0.8.8"
glam = "=0.34.2"
bevy_color = "=0.17.3"
async-fs = "=2.2.0"
futures-lite = "=2.6.1"
include_dir = "=0.7.4"
parking_lot = "=0.13.0"
globset = "=0.4.21"
tracing = "=0.1.44"
