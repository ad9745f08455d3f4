[package]
name = "arborist"
version = "0.1.0"
edition = "2021"
publish = false

[dependencies]
anchor-lang = "=0.26.0"
anyhow = "1"
clap = { version = "4", features = ["derive"] }
mpl-bubblegum = { version = "=0.7.0", features = ["no-entrypoint"] }
rpassword = "=6.0.1"
solana-clap-v3-utils = "=1.14.29"
solana-cli-config = "=1.14.29"
solana-remote-wallet = { version = "=1.14.29", default-features = false }
solana-sdk = "=1.14.29"
spl-account-compression = { version = "=0.1.10", features = ["no-entrypoint"] }
spl-noop = { version = "=0.1.3", features = ["no-entrypoint"] }
thiserror = "1"
tiny-bip39 = "=0.8.2"
tokio = { version = "1", features = ["rt-multi-thread"] }
uriparse = "=0.6.4"
