[package]
name = "perspective"
version = "0.1.0"
edition = "2021"
publish = false

[dependencies]
serde = { version = "*", features = ["derive"] }
serde_json = "*"
reqwest = { version = "*", default-features = false, features = ["json"] }
tokio = { version = "*", features = ["rt", "sync", "time", "macros"] }
futures = "*"
log = "*"
thiserror = "*"
