[package]
name = "audiobookshelf_client"
version = "0.1.0"
edition = "2021"
publish = false

[dependencies]
anyhow = "1"
axum = "0.7"
base64 = "0.22"
chrono = "0.4"
dotenv = "0.15"
reqwest = "0.12"
rodio = "0.20"
serde = { version = "1", features = ["derive"] }
serde_json = "1"
serde_path_to_error = "0.1"
thiserror = "1"
tokio = { version = "1", features = ["macros", "rt-multi-thread", "sync", "net"] }
