[package]
name = "skin_trader"
version = "0.1.0"
edition = "2021"
publish = false

[dependencies]
ringbuffer = "*"
ed25519-dalek = "2"
hex = "0.4"
serde = { version = "1", features = ["derive"] }
serde_json = "1"
tokio = { version = "1", features = ["full"] }
reqwest = { version = "0.12", default-features = false, features = ["json", "rustls-tls"] }
sqlx = { version = "0.8", default-features = false, features = ["runtime-tokio", "postgres", "time", "uuid", "macros"] }
tokio-tungstenite = { version = "0.24", features = ["rustls-tls-webpki-roots"] }
futures = "0.3"
futures-util = "0.3"
async-stream = "0.3"
log = "0.4"
env_logger = "0.11"
dotenvy = "0.15"
anyhow = "1"
chrono = { version = "0.4", default-features = false, features = ["clock", "std"] }
url = "2"
uuid = { version = "1", features = ["serde"] }
time = { version = "0.3", features = ["parsing", "formatting"] }
serde_qs = "0.13"
tokio-cron-scheduler = "0.13"
indicatif = "0.17"
plotters = { version = "0.3", default-features = false, features = ["bitmap_backend", "bitmap_encoder", "line_series", "histogram", "point_series"] }
