[package]
name = "review_bot"
version = "0.1.0"
edition = "2021"
publish = false

[dependencies]
clap = { version = "=4.6.7", features = ["derive"] }
env_logger = "=0.11.11"
google-generative-ai-rs = { version = "=0.3.4", features = ["beta"] }
log = "=0.4.34"
octocrab = "=0.41.2"
tokio = { version = "=1.53.2", features = ["macros", "rt-multi-thread"] }
