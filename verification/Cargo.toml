[package]
name = "block_insight_client"
version = "0.1.0"
edition = "2021"
publish = false

[dependencies]
anyhow = "1"
ewebsock = { version = "0.8", default-features = false }
futures-util = "0.3"
once_cell = "1"
prost = { version = "0.14", default-features = false, features = ["std"] }
reqwest = { version = "0.12", default-features = false, features = ["json"] }
serde = { version = "1", features = ["derive"] }
serde_json = "1"
solana-signature = "3"
solana-transaction-status-client-types = "3"
thiserror = "2"
tokio = { version = "1", features = ["rt", "sync", "time", "macros"] }
