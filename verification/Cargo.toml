[package]
name = "walltz"
version = "0.1.0"
edition = "2021"
publish = false

[dependencies]
anyhow = "1"
bytes = "1"
clap = { version = "4", features = ["derive"] }
dialoguer = "0.11"
directories = "5"
git2 = "0.18"
image = { version = "0.24", default-features = false, features = ["png", "jpeg", "gif", "bmp", "webp", "tiff", "ico"] }
indicatif = "0.17"
rand = "0.8"
regex = "1"
reqwest = { version = "0.11", features = ["blocking"] }
serde = { version = "1", features = ["derive"] }
serde_json = "1"
thiserror = "1"
toml = "0.8"
