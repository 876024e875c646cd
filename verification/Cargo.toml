[package]
name = "private_voting"
version = "0.1.0"
edition = "2021"
publish = false

[dependencies]
anchor-lang = { version = "=1.0.2", features = ["init-if-needed"] }
arcium-anchor = "=0.16.0"
arcium-client = { version = "=0.16.0", default-features = false }
arcium-macros = "=0.16.0"
