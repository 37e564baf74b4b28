[package]
name = "rag_chat"
version = "0.1.0"
edition = "2021"
publish = false

[dependencies]
uuid = { version = "*", features = ["v4", "serde"] }
tokenizers = "*"
serde = { version = "*", features = ["derive"] }
serde_json = "*"
reqwest = { version = "*", default-features = false, features = ["json"] }
tokio = { version = "*", features = ["macros", "rt-multi-thread", "sync"] }
actix-web = { version = "*", default-features = false, features = ["macros"] }
ahash = "*"
anyhow = "*"
env_logger = "*"
envy = "*"
log = "*"
qdrant-client = "*"
