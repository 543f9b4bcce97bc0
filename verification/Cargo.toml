[package]
name = "graffitech"
version = "0.1.0"
edition = "2021"
publish = false

[dependencies]
anyhow = "*"
kinode_process_lib = "=0.8.5"
serde = { version = "*", features = ["derive"] }
serde_json = "*"
