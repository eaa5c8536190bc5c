[package]
name = "state_keeper_updates"
version = "0.1.0"
edition = "2021"
publish = false

[dependencies]
anyhow = "1"
serde = { version = "1", features = ["derive"] }
sha3 = "=0.10.9"
sqlx = { version = "0.8", default-features = false, features = ["postgres", "runtime-tokio"] }
