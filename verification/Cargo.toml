[package]
name = "branch_head"
version = "0.1.0"
edition = "2021"
publish = false

[dependencies]
console_log = "*"
graphql_client = "*"
js-sys = "0.3"
log = "0.4"
serde = { version = "1", features = ["derive"] }
serde_json = "1"
wasm-bindgen = "0.2"
wasm-bindgen-futures = "0.4"
web-sys = { version = "0.3", features = ["Headers", "Request", "RequestInit", "RequestMode", "Response", "Window"] }
