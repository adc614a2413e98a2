[package]
name = "web_shell"
version = "0.1.0"
edition = "2021"
publish = false

[dependencies]
anyhow = "1"
axum = { version = "0.8", features = ["ws"] }
chardetng = "0.1"
dotenvy = "0.15"
encoding_rs = "0.8"
futures-util = "0.3"
normpath = "1"
strip-ansi-escapes = "0.2"
tokio = { version = "1", features = ["full"] }
tower-http = { version = "0.6", features = ["fs"] }
tracing = "0.1"
tracing-subscriber = { version = "0.3", features = ["env-filter"] }
