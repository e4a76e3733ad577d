[package]
name = "openweather_client"
version = "0.1.0"
edition = "2021"
publish = false

[dependencies]
url = "*"
serde = { version = "*", features = ["derive"] }
serde_json = "*"
http_req = { version = "*", default-features = false, features = ["rust-tls"] }
thiserror = "*"
log = "*"
time = "*"
