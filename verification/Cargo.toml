[package]
name = "solkit"
version = "0.1.0"
edition = "2021"
publish = false

[dependencies]
bs58 = "0.5"
base64 = "0.22"
ed25519-dalek = "1"
rand = "0.7"
solana-program = "1.18"
spl-token = { version = "4", features = ["no-entrypoint"] }
serde = { version = "1", features = ["derive"] }
serde_json = "1"
axum = "0.6"
tokio = { version = "1", features = ["macros", "rt-multi-thread"] }
