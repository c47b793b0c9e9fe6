[package]
name = "locd"
version = "0.1.0"
edition = "2021"
publish = false

[dependencies]
ed25519-dalek = { version = "2", features = ["rand_core"] }
x25519-dalek = { version = "2", features = ["static_secrets"] }
chacha20poly1305 = "0.10"
hkdf = "0.12"
sha2 = "0.10"
argon2 = "0.5"
base64ct = { version = "1", features = ["alloc"] }
hex = "0.4"
ciborium = "0.2"
uuid = { version = "1", features = ["v4"] }
rand = "0.8"
serde = { version = "1", features = ["derive"] }
serde_json = "1"
clap = { version = "4", features = ["derive"] }
anyhow = "1"
thiserror = "1"
tokio = { version = "1", features = ["rt-multi-thread", "macros", "net", "time"] }
reqwest = { version = "0.11", default-features = false, features = ["rustls-tls"] }
trust-dns-server = "0.23"
async-trait = "0.1"
tera = { version = "1", default-features = false }
chrono = "0.4"
statistical = "1"
