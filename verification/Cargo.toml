[package]
name = "floodgate"
version = "0.1.0"
edition = "2021"
publish = false

[dependencies]
anyhow = "=1.0.104"
axum = { version = "=0.8.9", features = ["macros"] }
base64 = "=0.22.1"
chrono = { version = "=0.4.45", default-features = false, features = ["std"] }
cid = "=0.11.3"
clap = { version = "=4.6.7", features = ["derive", "env"] }
dotenvy = "=0.15.7"
futures = "=0.3.34"
futures-util = "=0.3.34"
infer = "=0.22.0"
jacquard-common = { version = "=0.12.2", default-features = false, features = ["std"] }
log = "=0.4.34"
multihash-codetable = { version = "=0.2.2", features = ["sha2"] }
reqwest = { version = "=0.12.28", default-features = false, features = ["json", "stream", "rustls-tls"] }
rustls = "=0.23.46"
serde = { version = "=1.0.229", features = ["derive"] }
serde_json = "=1.0.154"
sqlx = { version = "=0.8.6", default-features = false, features = ["runtime-tokio", "postgres"] }
thiserror = "=2.0.21"
tokio = { version = "=1.54.1", features = ["macros", "net", "rt-multi-thread", "signal", "sync", "time"] }
tokio-tungstenite = { version = "=0.30.0", features = ["rustls-tls-webpki-roots"] }
tower-http = { version = "=0.6.11", features = ["catch-panic", "normalize-path", "trace"] }
tracing = "=0.1.44"
tracing-subscriber = { version = "=0.3.23", features = ["env-filter"] }
url = "=2.5.8"
