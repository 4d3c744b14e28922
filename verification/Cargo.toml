[package]
name = "moonlight"
version = "0.1.0"
edition = "2021"
publish = false

[dependencies]
aes = "=0.8.4"
hex = "=0.4.3"
rand = "=0.8.8"
rcgen = "=0.13.2"
reqwest = { version = "=0.12.28", default-features = false, features = ["blocking", "rustls-tls"] }
roxmltree = "=0.20.0"
rsa = { version = "=0.9.10", features = ["sha2"] }
serde = { version = "=1.0.229", features = ["derive"] }
serde_json = "=1.0.154"
sha1 = "=0.10.7"
sha2 = { version = "=0.10.9", features = ["oid"] }
thiserror = "=2.0.21"
x509-cert = "=0.2.5"
