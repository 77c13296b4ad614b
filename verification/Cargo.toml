[package]
name = "sapa_backend"
version = "0.1.0"
edition = "2021"
publish = false

[dependencies]
chrono = "=0.4.45"
url = "=2.5.8"
subtle = "=2.6.1"
twitch_oauth2 = "=0.17.1"
serde = { version = "=1.0.229", features = ["derive"] }
serde_json = "=1.0.154"
thiserror = "=2.0.21"
tokio = { version = "=1.54.1", features = ["macros", "rt-multi-thread", "sync", "net", "time"] }
axum = { version = "=0.8.9", features = ["ws"] }
tokio-stream = { version = "0.1", features = ["sync"] }
tracing = "=0.1.44"
dotenvy = "=0.15.7"
