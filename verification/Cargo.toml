[package]
name = "wba_vault"
version = "0.1.0"
edition = "2021"
publish = false

[dependencies]
borsh = { version = "1", features = ["derive"] }
solana-program = "1.18"
spl-associated-token-account = { version = "2.3", features = ["no-entrypoint"] }
spl-token = { version = "4.0", features = ["no-entrypoint"] }
