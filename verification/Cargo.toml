[package]
name = "ticket_triage"
version = "0.1.0"
edition = "2021"
publish = false

[dependencies]
whatlang = "=0.16.4"
language-enum = "=0.4.0"
serde_json = "=1.0.154"
serde = { version = "=1.0.229", features = ["derive"] }
chrono = { version = "=0.4.45", features = ["serde"] }
tokio = { version = "=1.54.1", features = ["macros", "rt-multi-thread", "sync", "time"] }
async-trait = "=0.1.92"
thiserror = "=1.0.69"
log = "=0.4.34"
env_logger = "=0.11.11"
dotenvy = "=0.15.7"
schemars = "=0.8.22"
reqwest = { version = "=0.12.28", default-features = false, features = ["json", "rustls-tls"] }
async-openai = "=0.28.3"
