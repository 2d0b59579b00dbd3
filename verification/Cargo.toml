[package]
name = "biq"
version = "0.1.0"
edition = "2021"
publish = false

[dependencies]
xml-rs = "=0.8.29"
base64 = "=0.22.1"
pqcrypto-kyber = "=0.8.1"
pqcrypto-traits = "=0.3.5"
uuid = { version = "=1.29.0", features = ["v4"] }
urlencoding = "=2.1.3"
roxmltree = "=0.19.0"
serde = { version = "=1.0.229", features = ["derive"] }
serde_json = "=1.0.154"
chrono = "=0.4.45"
tokio = { version = "=1.54.1", features = ["full"] }
axum = { version = "=0.7.9", features = ["ws"] }
tower-http = { version = "=0.5.2", features = ["cors", "trace"] }
reqwest = { version = "=0.12.28", features = ["json"] }
redis = { version = "=0.25.5", features = ["tokio-comp", "connection-manager"] }
tokio-tungstenite = { version = "=0.21.0", features = ["native-tls"] }
futures-util = "=0.3.34"
anyhow = "=1.0.104"
thiserror = "=1.0.69"
tracing = "=0.1.44"
tracing-subscriber = { version = "=0.3.23", features = ["env-filter"] }
dotenvy = "=0.15.7"
log = "=0.4.35"
actix = "=0.13.5"
actix-web = "=4.18.1"
actix-cors = "=0.7.2"
actix-web-actors = "=4.3.1+deprecated"
geo = "=0.28.0"
neo4rs = "0.8"
twitter-v2 = "0.1"
