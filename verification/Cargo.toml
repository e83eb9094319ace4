[package]
name = "mllt"
version = "0.1.0"
edition = "2021"
publish = false

[dependencies]
handlebars = "=6.4.4"
serde_json = "=1.0.151"
serde = { version = "=1.0.229", features = ["derive"] }
toml = "*"
clap = { version = "=4.6.7", features = ["derive"] }
ignore = "*"
walkdir = "*"
chrono = "*"
hashbrown = { version = "=0.17.1", features = ["serde"] }
color-eyre = "*"
tracing = "*"
tracing-subscriber = "*"
