[package]
name = "local_ai_assistant"
version = "0.1.0"
edition = "2021"
publish = false

[dependencies]
uuid = { version = "=1.29.0", features = ["v4"] }
chrono = "=0.4.45"
comrak = { version = "=0.59.0", default-features = false }
base64 = "=0.22.1"
hmac = "=0.12.1"
sha2 = "=0.10.9"
hex = "=0.4.3"
serde = { version = "=1.0.229", features = ["derive"] }
serde_json = "=1.0.154"
anyhow = "=1.0.104"
dirs = "=5.0.1"
dotenv = "=0.15.0"
tokio = { version = "=1.54.1", features = ["rt-multi-thread", "macros", "time", "process", "sync"] }
reqwest = { version = "=0.12.28", default-features = false, features = ["json"] }
feed-rs = "=2.4.0"
rusqlite = "=0.31.0"
image = { version = "=0.25.10", default-features = false, features = ["png"] }
readability = { version = "=0.3.0", default-features = false }
config = "0.14"
once_cell = "1"
