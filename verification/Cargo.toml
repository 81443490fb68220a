[package]
name = "chabbo"
version = "0.1.0"
edition = "2021"
publish = false

[dependencies]
markov = "=1.1.0"
directories = "=6.0.0"
serde = { version = "=1.0.229", features = ["derive"] }
anyhow = "=1.0.104"
envy = "=0.4.2"
axum = { version = "=0.6.20", features = ["multipart"] }
tokio = { version = "=1.53.2", features = ["full"] }
tower-http = { version = "=0.4.4", features = ["trace"] }
tracing = "=0.1.44"
tracing-subscriber = { version = "=0.3.23", features = ["env-filter"] }
