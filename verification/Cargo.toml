[package]
name = "generative"
version = "0.1.0"
edition = "2021"
publish = false

[dependencies]
anyhow = "1"
async-openai = "0.29"
async-trait = "0.1"
image = { version = "0.25", default-features = false, features = ["png", "jpeg"] }
ktx2-rw = "*"
reqwest = { version = "0.12", default-features = false, features = ["json", "rustls-tls"] }
serde_json = "1"
thiserror = "2"
tokio = { version = "1", features = ["rt", "time"] }
tracing = "0.1"
uuid = { version = "1", features = ["v4"] }
