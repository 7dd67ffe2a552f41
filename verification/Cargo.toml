[package]
name = "lore-vm"
version = "0.1.0"
edition = "2021"
publish = false

[dependencies]
lore = "*"
serde = { version = "1", features = ["derive"] }
serde_json = "1"
thiserror = "*"
tokio = { version = "1", default-features = false, features = ["process", "sync", "rt"] }
tracing = "0.1"
async-trait = "0.1"
