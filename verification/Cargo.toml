[package]
name = "service_provider"
version = "0.1.0"
edition = "2021"
publish = false

[dependencies]
serde_json = "1"
hex = "0.4"
chrono = "0.4"
serde = { version = "1", features = ["derive"] }
serde_derive = "1"
anyhow = "1"
thiserror = "1"
log = "0.4"
env_logger = "0.11"
structopt = "0.3"
async-trait = "0.1"
jsonrpc-core = "18"
actix-web = { version = "4", default-features = false }
actix-rt = "2"
reqwest = { version = "0.12", default-features = false, features = ["json"] }
