[package]
name = "code_sandbox"
version = "0.1.0"
edition = "2021"
publish = false

[dependencies]
anyhow = "=1.0.104"
axum = "=0.8.4"
serde = { version = "=1.0.219", features = ["derive"] }
serde_json = "=1.0.143"
swc_common = "=13.0.4"
swc_fast_ts_strip = "=23.0.2"
tempfile = "3"
tokio = { version = "1", features = ["rt-multi-thread", "macros", "net"] }
tower-http = { version = "0.6", features = ["trace"] }
tracing = "0.1"
tracing-subscriber = { version = "0.3", features = ["env-filter"] }
wasmtime = "=27.0.0"
wasmtime-wasi = "=27.0.0"
