[package]
name = "infovulcan"
version = "0.1.0"
edition = "2021"
publish = false

[dependencies]
anyhow = "1"
arc-swap = "1"
argon2 = "=0.5.3"
axum = "0.8"
chrono = "=0.4.45"
console_error_panic_hook = "0.1"
gloo-net = "0.6"
leptos = { version = "0.6", features = ["csr"] }
leptos_router = { version = "0.6", features = ["csr"] }
openraft = { version = "0.9", features = ["serde"] }
openraft-memstore = "0.9"
prost = "0.14"
prost-types = "0.14"
serde = { version = "1", features = ["derive"] }
serde_json = "=1.0.154"
sled = "=0.34.7"
thiserror = "2"
tokio = { version = "1", features = ["full"] }
tokio-stream = "0.1"
toml = "=0.9.12"
tonic = { version = "=0.14.9", features = ["tls-ring"] }
tower-http = { version = "0.6", features = ["fs", "cors", "compression-full"] }
tower_governor = "0.7"
tracing = "0.1"
tracing-subscriber = "0.3"
uuid = { version = "=1.29.0", features = ["v4"] }
wasm-bindgen-futures = "0.4"
web-sys = { version = "0.3", features = ["Window", "Storage", "Document", "Element"] }
