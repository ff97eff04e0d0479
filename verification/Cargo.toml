[package]
name = "sma_crossover"
version = "0.1.0"
edition = "2021"
publish = false

[dependencies]
clap = { version = "=4.6.7", features = ["derive", "env"] }
csv = "=1.4.0"
env_logger = "=0.11.11"
log = "=0.4.34"
reqwest = { version = "=0.12.28", default-features = false, features = ["json", "rustls-tls"] }
serde = { version = "=1.0.229", features = ["derive"] }
serde_json = "=1.0.154"
# Not used directly: teloxide-core asks for takecell 0.1, and 0.1.2 needs
# Rust 1.96, so the release before it is held.
takecell = "=0.1.1"
teloxide = { version = "=0.13.0", default-features = false, features = ["rustls"] }
tokio = { version = "=1.54.1", features = ["macros", "rt-multi-thread", "time"] }
