[package]
name = "arxiv_batch"
version = "0.1.0"
edition = "2021"
publish = false

[dependencies]
anyhow = "=1.0.104"
arxiv-tools = "=2.0.0"
chrono = "=0.4.45"
clap = { version = "=4.6.7", features = ["derive"] }
dotenvy = "=0.15.7"
fxhash = "=0.2.1"
indicatif = "=0.17.11"
keywords = "=0.1.0"
notion-tools = "=0.1.7"
openai-tools = "=3.1.0"
rsrpp = { version = "=2.0.0", default-features = false }
serde = { version = "=1.0.229", features = ["derive"] }
serde_json = "=1.0.154"
ss-tools = "=1.1.0"
tokio = { version = "=1.54.1", features = ["full"] }
toml = "=0.8.23"
