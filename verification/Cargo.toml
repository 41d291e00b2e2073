[package]
name = "letsencrypt_inwx"
version = "1.0.0"
edition = "2021"
publish = false

[dependencies]
sxd-document = "*"
sxd-xpath = "*"
reqwest = { version = "*", default-features = false, features = ["blocking"] }
cookie = "*"
clap = "*"
serde = { version = "*", features = ["derive"] }
serde_json = "*"
log = "*"
env_logger = "*"
openssl-probe = "*"
trust-dns-client = "*"
