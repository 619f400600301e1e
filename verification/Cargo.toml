[package]
name = "transfer_hook"
version = "0.1.0"
edition = "2021"
publish = false

[dependencies]
solana-pubkey = { version = "=3.0.0", features = ["curve25519"] }
spl-tlv-account-resolution = "=0.11.4"
spl-transfer-hook-interface = "=2.1.0"
spl-token-2022-interface = "=3.1.2"
solana-account-info = "=3.1.1"
solana-program-entrypoint = "=3.1.1"
solana-program-error = "=3.0.1"
solana-cpi = "=3.1.0"
solana-instruction = "=3.5.1"
solana-system-interface = { version = "=2.0.0", features = ["bincode"] }
solana-rent = "=3.1.0"
solana-sysvar = "=3.1.1"
