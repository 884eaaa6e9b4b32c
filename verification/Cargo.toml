[package]
name = "swapwatch"
version = "0.1.0"
edition = "2021"
publish = false

[dependencies]
base64 = "=0.21.7"
bincode = "=1.3.3"
serde_json = "=1.0.154"
solana-sdk = "=4.0.1"
solana-program = "=4.0.0"
carbon-core = "=1.0.0"
carbon-raydium-amm-v4-decoder = "=1.0.0"
tokio = { version = "1", features = ["rt-multi-thread", "macros"] }
tokio-tungstenite = "*"
futures-util = "0.3"
reqwest = { version = "*", default-features = false, features = ["json"] }
