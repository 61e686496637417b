[package]
name = "pvlc_decoder_sessions"
version = "0.1.0"
edition = "2021"
publish = false

[dependencies]
blake3 = "=1.8.7"
bytemuck = "=1.25.2"
serde_json = "=1.0.154"
js-sys = "=0.3.107"
wasm-bindgen = "=0.2.130"
wasm-bindgen-futures = "=0.4.80"
wgpu = { version = "=30.0.1", default-features = false, features = ["webgpu", "wgsl"] }
