[package]
name = "miniorm"
version = "0.1.0"
edition = "2021"
publish = false

[dependencies]
itertools = "0.12"
serde = { version = "1", features = ["derive"] }
sqlx = { version = "0.7", default-features = false, features = ["postgres", "runtime-tokio"] }

[dev-dependencies]
serde_json = "1"
