[package]
name = "cc_wired"
version = "0.1.0"
edition = "2021"
publish = false

[dependencies]
serde_json = "=1.0.154"
serde = { version = "=1.0.229", features = ["derive"] }
actix-web = { version = "=4.18.1", default-features = false, features = ["macros"] }
actix-ws = "=0.3.1"
tokio = { version = "=1.54.1", features = ["full"] }
futures-util = { version = "=0.3.34", features = ["sink"] }
log = "=0.4.35"
env_logger = "=0.11.11"
clap = { version = "=4.6.7", features = ["derive"] }
config = { version = "=0.14.1", default-features = false, features = ["toml"] }
notify = "=8.2.1"
tokio-tungstenite = "=0.30.0"
uuid = { version = "=1.29.1", features = ["v4"] }
getrandom = "=0.4.3"
anyhow = "=1.0.104"
async-trait = "=0.1.92"
