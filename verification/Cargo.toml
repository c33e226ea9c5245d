[package]
name = "martian_adapters"
version = "0.1.0"
edition = "2021"
publish = false

[dependencies]
regex = "*"
base64 = "*"
serde = { version = "*", features = ["derive"] }
serde_json = "*"
toml = "*"
once_cell = "*"
dashmap = "*"
futures = "*"
async-trait = "*"
thiserror = "*"
tokio = { version = "*", features = ["rt-multi-thread", "macros", "sync"] }
reqwest = { version = "*", default-features = false, features = ["json"] }
