[package]
name = "authflow"
version = "1.0.0"
edition = "2021"
publish = false

[dependencies]
urlencoding = "2"
hmac = "0.12"
sha2 = "0.10"
pbkdf2 = "0.12"
serde = { version = "1", features = ["derive"] }
serde_json = "1"
reqwest = { version = "0.11", default-features = false, features = ["json"] }
actix-web = { version = "4", default-features = false }
futures = "0.3"
axum = { version = "0.7", default-features = false }
