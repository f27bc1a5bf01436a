[package]
name = "tiny-log"
version = "0.1.0"
edition = "2021"
publish = false

[dependencies]
anyhow = "=1.0.104"
argon2 = "=0.6.0"
axum = "=0.8.9"
axum-extra = { version = "=0.10.3", features = ["cookie"] }
chrono = "=0.4.45"
clap = { version = "=4.6.7", features = ["derive"] }
futures = "=0.3.34"
hex = "=0.4.3"
hostname = "=0.4.2"
http = "=1.5.0"
http-body-util = "=0.1.5"
hyper = { version = "=1.12.0", features = ["client", "http1"] }
hyper-util = { version = "=0.1.21", features = ["tokio"] }
libc = "=0.2.191"
rand = "=0.9.5"
reqwest = { version = "=0.12.28", default-features = false, features = ["json", "rustls-tls"] }
rpassword = "=7.5.4"
serde = { version = "=1.0.229", features = ["derive"] }
serde_json = "=1.0.154"
sqlx = { version = "=0.8.6", default-features = false, features = ["runtime-tokio", "sqlite", "migrate", "macros"] }
thiserror = "=2.0.21"
time = "=0.3.55"
tokio = { version = "=1.54.1", features = ["full"] }
toml = "=0.8.23"
tower-http = { version = "=0.6.11", features = ["cors", "trace", "set-header"] }
tracing = "=0.1.44"
tracing-subscriber = { version = "=0.3.23", features = ["env-filter"] }
