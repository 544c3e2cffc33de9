[package]
name = "merco_llmproxy"
version = "0.1.0"
edition = "2021"
publish = false

[dependencies]
serde = { version = "*", features = ["derive"] }
serde_json = "*"
reqwest = { version = "*", default-features = false, features = ["json", "stream", "rustls-tls"] }
tokio = { version = "*", features = ["macros", "rt-multi-thread"] }
futures = "*"
bytes = "*"
async-trait = "*"
anyhow = "*"
chrono = "*"
dotenv = "*"
