[package]
name = "enclave"
version = "0.1.0"
edition = "2021"
publish = false

[dependencies]
argon2 = "=0.6.0"
chrono = { version = "=0.4.45", features = ["serde"] }
jsonwebtoken = { version = "=10.4.0", default-features = false, features = ["rust_crypto"] }
libsql = { version = "=0.10.0", default-features = false, features = ["remote"] }
poem = "=3.1.12"
poem-openapi = { version = "=5.1.16", features = ["swagger-ui", "chrono"] }
tokio = { version = "=1.54.1", features = ["macros", "rt-multi-thread"] }
serde = { version = "=1.0.229", features = ["derive"] }
serde_json = { version = "=1.0.154", features = ["preserve_order"] }
dotenvy = "=0.15.7"
tracing = "=0.1.44"
yew = { version = "=0.23.0", features = ["csr"] }
gloo-net = "=0.7.0"
gloo-dialogs = "=0.3.0"
web-sys = { version = "=0.3.107", features = ["Window", "Storage"] }
wasm-bindgen-futures = "=0.4.80"
