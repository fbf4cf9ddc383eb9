[package]
name = "domain_for_sale"
version = "0.1.0"
edition = "2021"
publish = false

[dependencies]
validator = "=0.21.0"
mime_guess = "=2.0.5"
serde = { version = "=1.0.229", features = ["derive"] }
axum = "=0.8.9"
tokio = { version = "=1.53.2", features = ["macros", "rt-multi-thread", "time", "net"] }
reqwest = { version = "=0.13.5", default-features = false, features = ["json", "form"] }
lettre = { version = "=0.11.23", default-features = false, features = ["smtp-transport", "builder", "rustls-tls"] }
dotenv = "=0.15.0"
tracing = "=0.1.44"
tracing-subscriber = { version = "=0.3.23", features = ["env-filter"] }
