[package]
name = "animewatch"
version = "0.1.0"
edition = "2021"
publish = false

[dependencies]
hex = "=0.4.3"
serde = { version = "=1.0.229", features = ["derive"] }
axum = "=0.7.9"
axum-extra = { version = "=0.9.6", features = ["cookie"] }
chrono = "=0.4.45"
oauth2 = "=4.4.2"
reqwest = { version = "=0.11.27", default-features = false, features = ["json", "rustls-tls"] }
sea-orm = { version = "=0.12.15", default-features = false, features = ["macros", "with-chrono"] }
shuttle-axum = "=0.44.0"
shuttle-runtime = "=0.44.0"
shuttle-secrets = "=0.42.0"
tokio = { version = "1", features = ["rt", "macros"] }
