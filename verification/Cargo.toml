[package]
name = "models_openai"
version = "0.1.0"
edition = "2021"
publish = false

[dependencies]
async-openai = { version = "=0.42.1", features = ["chat-completion", "image", "model"] }
base64 = "=0.23.1"
Inflector = "=0.11.4"
reqwest = { version = "=0.13.5", default-features = false, features = ["json", "multipart"] }
serde = { version = "=1.0.229", features = ["derive"] }
tokio = { version = "=1.53.2", default-features = false, features = ["rt", "macros", "sync"] }
