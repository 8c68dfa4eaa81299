[package]
name = "stdr_rcbeam"
version = "0.1.0"
edition = "2021"
publish = false

[dependencies]
anyhow = "*"
clap = { version = "*", features = ["derive"] }
dxf = "*"
serde = { version = "*", features = ["derive"] }
toml = "*"
