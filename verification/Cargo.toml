[package]
name = "fluxvm"
version = "0.1.0"
edition = "2021"
publish = false

[dependencies]
anstyle = "=1.0.14"
anyhow = "1"
async-stream = "0.3"
async-trait = "0.1"
axum = { version = "=0.8.9", default-features = false, features = ["http1", "matched-path", "original-uri", "query", "tokio", "tower-log", "tracing", "ws"] }
axum-server = { version = "0.7", features = ["tls-rustls"] }
bytes = "1"
chrono = { version = "=0.4.45", features = ["serde"] }
clap = { version = "4", features = ["derive", "env"] }
futures = "0.3"
jsonwebtoken = "=9.3.1"
libc = "0.2"
redis = { version = "0.27", features = ["tokio-comp", "connection-manager"] }
reqwest = { version = "0.12", default-features = false, features = ["json", "rustls-tls"] }
rustls = "0.23"
rustls-pemfile = "2"
serde = { version = "1", features = ["derive"] }
serde_json = { version = "=1.0.154", features = ["preserve_order"] }
tokio = { version = "1", features = ["rt-multi-thread", "macros", "net", "io-util", "time", "process", "fs", "sync"] }
tower-http = { version = "0.6", features = ["trace"] }
tracing = "0.1"
tracing-subscriber = { version = "0.3", features = ["env-filter"] }
uuid = { version = "=1.29.0", features = ["v4", "serde"] }
