[package]
name = "jutella_xmpp"
version = "0.1.0"
edition = "2021"
publish = false

[dependencies]
anyhow = "=1.0.104"
clap = { version = "=4.6.7", features = ["derive"] }
futures = "=0.3.34"
jutella = "=0.8.1"
reqwest = "=0.12.28"
rustls = "=0.23.45"
serde = { version = "=1.0.229", features = ["derive"] }
tiktoken-rs = "=0.12.1"
tokio = { version = "=1.53.2", features = ["macros", "rt-multi-thread", "sync", "time"] }
tokio-stream = "=0.1.19"
tokio-xmpp = "=6.0.0"
toml = "=1.1.7"
tracing = "=0.1.44"
tracing-log = "=0.2.0"
tracing-subscriber = { version = "=0.3.23", features = ["env-filter"] }
xmpp-parsers = "=0.23.0"
