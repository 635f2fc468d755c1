[package]
name = "translation_bridge"
version = "0.1.0"
edition = "2021"
publish = false

[dependencies]
anyhow = "1"
axum = "0.8"
isolang = "=2.4.0"
reqwest = { version = "0.12", default-features = false, features = ["json"] }
rquickjs = { version = "=0.14.0", features = ["futures", "array-buffer"] }
serde_json = "1"
thiserror = "2"
tokio = { version = "1", features = ["full"] }
tower-http = { version = "0.6", features = ["cors", "trace"] }
tracing = "0.1"
tracing-subscriber = "0.3"
wasmparser = "=0.262.0"
wasmtime = { version = "=45.0.3", default-features = false, features = ["cranelift", "runtime", "std"] }
whichlang = "=0.1.1"
