[package]
name = "cad_viewer"
version = "0.1.0"
edition = "2021"
publish = false

[dependencies]
nalgebra-glm = "=0.21.0"
serde_json = { version = "=1.0.151", features = ["float_roundtrip"] }
num-traits = "=0.2.19"
bytemuck = "=1.25.2"
anyhow = "=1.0.104"
log = "=0.4.34"
simple-logging = "=2.0.2"
glow = "=0.18.0"
glutin = "=0.29.1"
cad_import = "=0.3.1"
