[package]
name = "leptos_sse"
version = "0.1.0"
edition = "2021"
publish = false

[dependencies]
json-patch = "*"
serde_json = "1"
serde = { version = "1", features = ["derive"] }
leptos = "0.7"
wasm-bindgen = "0.2"
js-sys = "0.3"
web-sys = { version = "0.3", features = ["EventSource", "MessageEvent", "Event"] }
