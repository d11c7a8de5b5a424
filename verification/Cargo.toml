[package]
name = "token_config"
version = "0.1.0"
edition = "2021"
publish = false

[dependencies]
clap = "=2.34.0"
solana-clap-utils = "=2.2.20"
solana-keypair = "=2.2.3"
solana-pubkey = "=2.4.0"
solana-remote-wallet = { version = "=2.2.20", default-features = false }
solana-signer = "=2.2.1"
spl-associated-token-account = { version = "=6.0.0", features = ["no-entrypoint"] }
spl-token-2022 = { version = "=8.0.1", features = ["no-entrypoint"] }
