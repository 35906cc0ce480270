[package]
name = "deviantart"
version = "0.1.0"
edition = "2021"
publish = false

[dependencies]
anyhow = "1"
argh = "0.1"
cookie_store = "0.22"
directories-next = "2"
itoa = "=1.0.18"
regex = "=1.13.1"
reqwest = { version = "=0.12.28", default-features = false, features = ["cookies", "json", "rustls-tls"] }
reqwest_cookie_store = "0.9"
serde = { version = "1", features = ["derive"] }
serde_json = "1"
thiserror = "2"
tokio = { version = "1", features = ["rt-multi-thread", "fs"] }
toml = "1"
url = { version = "=2.5.8", features = ["serde"] }
