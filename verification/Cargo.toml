[package]
name = "contexa"
version = "0.1.0"
edition = "2021"
publish = false

[dependencies]
lru = "0.12"
sha2 = "0.10"
whatlang = "0.16"
bcrypt = "0.15"
uuid = { version = "1", features = ["v4"] }
chrono = { version = "0.4", default-features = false, features = ["clock", "std"] }
rand = "0.8"
serde = { version = "1", features = ["derive"] }
serde_json = "1"
tokio = { version = "1", features = ["rt-multi-thread", "macros", "sync", "time"] }
reqwest = { version = "0.12", default-features = false, features = ["json", "rustls-tls"] }
rusqlite = { version = "0.32", features = ["bundled", "load_extension"] }
keyring = "3"
thiserror = "1"
async-trait = "0.1"
tracing = "0.1"
anyhow = "1"
