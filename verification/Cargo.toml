[package]
name = "orbit"
version = "0.1.0"
edition = "2021"
publish = false

[dependencies]
serde_json = "*"
serde = { version = "*", features = ["derive"] }
clap = { version = "*", features = ["derive", "env"] }
colored = "*"
comfy-table = "*"
dirs = "*"
indicatif = "*"
reqwest = { version = "*", default-features = false, features = ["json"] }
serde_yaml = "*"
thiserror = "*"
tokio = { version = "*", features = ["macros", "rt-multi-thread"] }
toml = "*"
