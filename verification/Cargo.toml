[package]
name = "scalpel"
version = "0.1.0"
edition = "2021"
publish = false

[dependencies]
actix-web = { version = "4", features = ["openssl"] }
arc-swap = "1"
async-trait = "0.1"
bincode = "1.3"
bytes = "1"
chrono = "0.4"
ctrlc = "3"
env_logger = "0.9"
forceps = "*"
futures = "0.3"
lazy_static = "1"
log = "0.4"
mime = "0.3"
openssl = "0.10"
prometheus = { version = "0.13", features = ["process"] }
reqwest = { version = "0.11", features = ["json", "stream"] }
rocksdb = "0.22"
serde = { version = "1", features = ["derive"] }
serde_json = "1"
serde_yaml = "0.8"
sodiumoxide = "0.2"
tokio = { version = "1", features = ["full"] }
url = "2"
