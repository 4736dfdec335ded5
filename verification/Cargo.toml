[package]
name = "package_site"
version = "0.1.0"
edition = "2021"
publish = false

[dependencies]
anyhow = "=1.0.104"
dotenvy = "=0.15.7"
dptree = "=0.5.1"
reqwest = { version = "=0.12.28", features = ["json"] }
serde = { version = "=1.0.229", features = ["derive"] }
takecell = "=0.1.1"
teloxide = { version = "=0.17.0", features = ["macros"] }
tokio = { version = "=1.53.2", features = ["macros", "rt-multi-thread"] }
tracing-subscriber = "=0.3.23"

[dev-dependencies]
serde_json = "=1.0.151"
