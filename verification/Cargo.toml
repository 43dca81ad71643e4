[package]
name = "lncashu"
version = "0.1.0"
edition = "2021"
publish = false

[dependencies]
axum = "=0.7.9"
cdk = "=0.6.1"
cdk-redb = "=0.6.0"
ldk-node = "0.4"
rand = "=0.8.8"
reqwest = { version = "=0.12.28", features = ["json"] }
secp256k1 = "0.29"
serde = { version = "1", features = ["derive"] }
serde_json = "1"
thiserror = "=1.0.69"
tokio = { version = "1", features = ["full"] }

[dev-dependencies]
hex-conservative = "1"
