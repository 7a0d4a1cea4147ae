[package]
name = "mensa_report"
version = "0.1.0"
edition = "2021"
publish = false

[dependencies]
chrono = "=0.4.45"
tabled = "=0.22.0"
clap = { version = "=4.6.7", features = ["derive"] }
serde = { version = "=1.0.229", features = ["derive"] }
toml = "=0.9.8"
tokio = { version = "=1.53.2", features = ["macros", "rt-multi-thread"] }
shellexpand = "=3.1.2"
reqwest = { version = "0.12", default-features = false, features = ["rustls-tls", "json"] }
