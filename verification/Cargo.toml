[package]
name = "gameserverlist"
version = "0.1.0"
edition = "2021"
publish = false

[dependencies]
serde_json = "=1.0.151"
uuid = { version = "=1.27.0", features = ["v4"] }
serde = { version = "1", features = ["derive"] }
axum = { version = "0.6", features = ["ws"] }
axum-client-ip = "0.4"
envy = "0.4"
lazy_static = "1"
prometheus = "0.13"
public-ip = "0.2"
tokio = { version = "1", features = ["full"] }
tower = { version = "0.4", features = ["util", "timeout"] }
tower-http = { version = "0.4", features = ["trace"] }
tracing = "0.1"
tracing-subscriber = { version = "0.3", features = ["env-filter"] }
