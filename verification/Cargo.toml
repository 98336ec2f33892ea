[package]
name = "server_fn"
version = "0.1.0"
edition = "2021"
publish = false

[dependencies]
axum = { version = "0.8", features = ["ws"] }
futures = "0.3"
gloo-net = "*"
gloo-timers = { version = "*", features = ["futures"] }
rmp-serde = "1"
serde = { version = "1", features = ["derive"] }
serde_json = "1"
serde_urlencoded = "*"
thiserror = "*"
tokio = { version = "1", features = ["macros", "rt", "sync", "time"] }
tracing = "0.1"
wasm-bindgen-futures = "*"
web-sys = { version = "*", features = ["Location", "Window", "console"] }
