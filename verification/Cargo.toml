[package]
name = "zkmove_cli"
version = "0.1.0"
edition = "2021"
publish = false

[dependencies]
hex = "*"
anyhow = "*"
serde = { version = "*", features = ["derive"] }
serde_json = "*"
clap = { version = "*", features = ["derive"] }
halo2_proofs = "*"
