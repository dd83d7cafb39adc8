[package]
name = "goatstore"
version = "0.1.0"
edition = "2021"
publish = false

[dependencies]
rusqlite = { version = "*", features = ["bundled"] }
serde = { version = "*", features = ["derive"] }
actix-web = "*"
actix-cors = "*"
thiserror = "*"
tracing = "*"
tracing-subscriber = "*"
