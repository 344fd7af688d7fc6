[package]
name = "ipc_agent"
version = "0.1.0"
edition = "2021"
publish = false

[dependencies]
ethers-core = "2"
cid = "*"
serde = { version = "1", features = ["derive"] }
toml = "*"
tokio = { version = "1", features = ["fs"] }
anyhow = "1"

[dev-dependencies]
hex = "*"
