[package]
name = "copal"
version = "0.1.0"
edition = "2021"
publish = false

[dependencies]
anyhow = "*"
axum = "*"
clap = { version = "*", features = ["derive"] }
dotenvy = "*"
env_logger = "*"
futures = "*"
log = "*"
reqwest = { version = "*", default-features = false, features = ["blocking"] }
rig-core = "=0.38.2"
rustyline = "*"
scraper = "=0.27.0"
serde = { version = "*", features = ["derive"] }
serde_json = "*"
texting_robots = "=0.2.2"
thiserror = "*"
tokio = { version = "*", features = ["rt-multi-thread", "macros", "sync", "net"] }
tower-http = { version = "*", features = ["fs", "cors"] }
url = "=2.5.8"
uuid = { version = "=1.27.0", features = ["v4"] }
