[package]
name = "proof_rust"
version = "0.1.0"
edition = "2021"
publish = false

[dependencies]
axum = "0.8"
bson = { version = "2", features = ["chrono-0_4"] }
chrono = "0.4"
futures-util = "0.3"
jsonwebtoken = "9"
leptos = { version = "0.8", features = ["ssr"] }
leptos_axum = "0.8"
mongodb = "2"
reqwest = { version = "0.12", features = ["json"] }
serde = { version = "1", features = ["derive"] }
serde_json = "1"
tokio = { version = "1", features = ["full"] }
tower-http = { version = "0.6", features = ["fs"] }
