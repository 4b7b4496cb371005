[package]
name = "axum-htmx"
version = "0.1.0"
edition = "2021"
publish = false

[dependencies]
http = "1"
serde = { version = "1", features = ["derive"] }
serde_json = "1"
axum = { version = "0.7", default-features = false }
axum-core = "0.4"
async-trait = "0.1"
tower = "0.5"
tokio = { version = "1", features = ["sync"] }
futures = "0.3"
futures-core = "0.3"
pin-project-lite = "0.2"
proc-macro2 = "1"
quote = "1"
syn = { version = "2", features = ["full"] }
