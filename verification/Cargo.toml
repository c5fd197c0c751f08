[package]
name = "vcfgrpaf"
version = "0.1.0"
edition = "2021"
publish = false

[dependencies]
anyhow = "*"
clap = { version = "*", features = ["derive"] }
csv = "*"
rust-htslib = "*"
serde = { version = "*", features = ["derive"] }
