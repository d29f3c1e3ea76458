[package]
name = "url_uploader"
version = "0.1.0"
edition = "2021"
publish = false

[dependencies]
anyhow = "1"
async-read-progress = { version = "=0.2.0", features = ["with-tokio"] }
bytesize = "=1.3.3"
chrono = { version = "=0.4.45", features = ["serde"] }
dashmap = "=6.2.1"
futures = "0.3"
grammers-client = { version = "=0.7.0", features = ["html"] }
log = "0.4"
mime_guess = "=2.0.5"
mongodb = "=2.8.2"
percent-encoding = "=2.3.2"
regex = "=1.13.1"
reqwest = { version = "=0.12.28", default-features = false, features = ["rustls-tls", "stream", "json"] }
scopeguard = "1"
serde = { version = "1", features = ["derive"] }
serde_json = "=1.0.154"
stream-cancel = "=0.8.2"
tokio = { version = "1", features = ["full"] }
tokio-util = { version = "0.7", features = ["compat"] }
