[package]
name = "metaplex_core_nft"
version = "0.1.0"
edition = "2021"
publish = false

[dependencies]
mpl-core = "=0.12.1"
solana-program = "=5.1.0"
