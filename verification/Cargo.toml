[package]
name = "authcore"
version = "0.1.0"
edition = "2021"
publish = false

[dependencies]
chrono = "=0.4.45"
md5 = "=0.8.1"
tokio = { version = "=1.53.2", features = ["rt-multi-thread", "macros", "sync", "time", "net"] }
serde = { version = "=1.0.229", features = ["derive"] }
serde_json = "=1.0.151"
clap = { version = "=4.6.7", features = ["derive"] }
toml = "=1.1.7"
thiserror = "=2.0.21"
async-trait = "=0.1.92"
hmac = "=0.12.1"
sha2 = "=0.10.9"
jwt = "=0.16.0"
axum = "=0.8.9"
tower = "=0.5.3"
tower-http = { version = "=0.7.1", features = ["cors", "timeout"] }
