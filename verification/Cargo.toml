[package]
name = "nft_voter"
version = "0.1.0"
edition = "2021"
publish = false

[dependencies]
solana-program = "=2.3.0"
mpl-bubblegum = "=2.1.1"
