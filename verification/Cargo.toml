[package]
name = "waylyrics"
version = "0.4.0"
edition = "2021"
publish = false

[dependencies]
md5 = "=0.8.1"
regex = "=1.13.1"
serde = { version = "=1.0.229", features = ["derive"] }
serde_json = "=1.0.154"
anyhow = "=1.0.104"
tracing = "=0.1.44"
tracing-subscriber = { version = "*", features = ["env-filter", "fmt"] }
toml = "*"
gtk4 = "=0.11.5"
