[package]
name = "vetoriza"
version = "0.1.0"
edition = "2021"
publish = false

[dependencies]
base64 = "0.22"
geojson = "0.24"
image = "0.25"
imageproc = "0.25"
wasm-bindgen = "0.2"

[dev-dependencies]
serde_json = "1"
