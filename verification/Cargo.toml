[package]
name = "sp1_prover"
version = "0.1.0"
edition = "2021"
publish = false

[dependencies]
anyhow = "*"
clap = { version = "*", features = ["derive", "env"] }
hex = "*"
rand = "*"
serde_json = "*"
tokio = { version = "*", features = ["macros", "rt-multi-thread", "sync"] }
tokio-stream = "*"
url = "*"
