[package]
name = "orpheus"
version = "0.1.0"
edition = "2021"
publish = false

[dependencies]
image = { version = "=0.25.10", default-features = false, features = ["png", "bmp", "pnm"] }
sha2 = "=0.11.0"
font8x8 = "=0.3.1"
deunicode = "=1.6.2"
dashmap = "=6.2.1"
ratatui = "=0.29.0"
rspotify = { version = "=0.16.1", default-features = false, features = ["client-reqwest"] }
reqwest = { version = "=0.12.28", default-features = false, features = ["json"] }
tokio = { version = "=1.53.2", features = ["macros", "rt-multi-thread", "sync", "time"] }
serde = { version = "=1.0.229", features = ["derive"] }
serde_json = "=1.0.151"
chrono = "=0.4.45"
anyhow = "=1.0.104"
thiserror = "=2.0.21"
dotenv = "=0.15.0"
directories = "=6.0.0"
