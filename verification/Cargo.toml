[package]
name = "twurst"
version = "0.1.0"
edition = "2021"
publish = false

[dependencies]
axum = "*"
axum-core = "*"
eyre = "*"
http = "*"
http-body = "*"
http-body-util = "*"
prost = "*"
prost-build = "*"
prost-reflect = { version = "*", features = ["serde"] }
prost-reflect-build = "*"
prost-types = "*"
regex = "*"
reqwest = { version = "*", default-features = false }
serde = { version = "*", features = ["derive"] }
serde_json = "*"
tokio = { version = "*", features = ["rt-multi-thread", "net", "macros"] }
tokio-stream = "*"
tonic = "*"
tonic-prost = "*"
tower = "*"
tower-http = { version = "*", features = ["cors", "auth"] }
tower-service = "*"
tracing = "*"
trait-variant = "*"
