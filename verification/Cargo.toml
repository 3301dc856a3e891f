[package]
name = "kiln"
version = "0.1.0"
edition = "2021"
publish = false

[dependencies]
blake3 = "=1.8.7"
anchor-lang = { version = "=0.30.1", features = ["init-if-needed"] }
clap = { version = "=4.6.7", features = ["derive"] }
tokio = { version = "=1.54.1", features = ["macros", "rt-multi-thread"] }
anyhow = "=1.0.104"
