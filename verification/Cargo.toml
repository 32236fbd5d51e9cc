[package]
name = "auth_api"
version = "0.1.0"
edition = "2021"
publish = false

[dependencies]
rust-argon2 = "1.0"
base64 = "0.13"
sha256 = "1.0"
rand = "0.8"
rocket = { version = "0.5", features = ["json"] }
juniper = "0.16"
juniper_rocket = "0.9"
graphql_client = { version = "0.13", default-features = false }
reqwest = { version = "0.11", default-features = false, features = ["json", "rustls-tls"] }
snafu = "0.7"
serde = { version = "1", features = ["derive"] }
log = "0.4"

[dev-dependencies]
regex = "1"
