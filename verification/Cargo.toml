[package]
name = "xeval"
version = "0.1.0"
edition = "2021"
publish = false

[dependencies]
regex = "1"
serde_json = "1"
sha2 = "0.10"
toml_edit = "0.22"
serde = { version = "1", features = ["derive"] }
serde_yaml = "0.9"
reqwest = { version = "0.12", default-features = false, features = ["json", "rustls-tls"] }
tokio = { version = "1", features = ["macros", "rt-multi-thread"] }
clap = { version = "4", features = ["derive"] }
anyhow = "1"
thiserror = "1"
dialoguer = "0.11"
console = "0.15"
indicatif = "0.17"
dirs = "5"
globwalk = "0.9"
toml = "0.8"
config = { version = "0.14", default-features = false, features = ["toml"] }
