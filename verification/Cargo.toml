[package]
name = "m3u8_downloader"
version = "0.5.0"
edition = "2021"
publish = false

[dependencies]
m3u8-rs = "1"
nom = "5"
url = "2"
clap = "2"
tokio = { version = "1", features = ["full"] }
reqwest = { version = "0.11", default-features = false, features = ["rustls-tls"] }
futures = "0.3"
async-stream = "0.3"
bytes = "1"
chrono = "0.4"
colored = "2"
log = "0.4"
pretty_env_logger = "0.4"
quick-error = "2"
