[package]
name = "terminus"
version = "0.1.0"
edition = "2021"
publish = false

[dependencies]
arc-swap = "1"
async-trait = "0.1"
axum = "0.7"
reqwest = { version = "0.12", default-features = false, features = ["json"] }
serde = { version = "1", features = ["derive"] }
serde_json = "1"
tower = { version = "0.5", features = ["util"] }
tower-http = { version = "0.6", features = ["trace"] }
tracing = "0.1"
uuid = { version = "1", features = ["v4"] }
