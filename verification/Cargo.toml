[package]
name = "payments"
version = "0.1.0"
edition = "2021"
publish = false

[dependencies]
actix-web = "*"
serde = { version = "*", features = ["derive"] }
serde_json = "*"
tokio = { version = "*", features = ["rt", "macros"] }
tokio-postgres = "*"
uuid = { version = "*", features = ["v4"] }
