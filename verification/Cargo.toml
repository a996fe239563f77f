[package]
name = "rustybench"
version = "0.1.0"
edition = "2021"
publish = false

[dependencies]
blake3 = "1"
serde = { version = "1", features = ["derive"] }
serde_json = "1"
toml = "0.8"
clap = { version = "4", features = ["derive"] }
thiserror = "1"
syn = { version = "2", features = ["full", "visit"] }
reqwest = { version = "0.12", default-features = false, features = ["blocking", "json"] }
