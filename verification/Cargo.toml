[package]
name = "babblebot"
version = "0.1.0"
edition = "2021"
publish = false

[dependencies]
bcrypt = "0.15"
regex = "1"
reqwest = { version = "0.11", default-features = false, features = ["blocking", "json", "rustls-tls"] }
serde = { version = "1", features = ["derive"] }
serde_json = "1"
jsonwebtoken = "9"
config = { version = "0.14", default-features = false }
redis = { version = "0.25", default-features = false }
r2d2_redis = "0.14"
crossbeam-channel = "0.5"
futures = "0.3"
rocket = { version = "0.5", features = ["json", "secrets"] }
rocket_dyn_templates = { version = "0.2", features = ["handlebars"] }
serenity = { version = "0.12", default-features = false, features = ["client", "gateway", "model", "rustls_backend"] }
