[package]
name = "scaffold_gateway"
version = "0.1.0"
edition = "2021"
publish = false

[dependencies]
uuid = { version = "*", features = ["v4"] }
serde = { version = "*", features = ["derive"] }
serde_json = "*"
axum = { version = "*", features = ["ws", "multipart"] }
tokio = { version = "*", features = ["full"] }
reqwest = { version = "*", default-features = false, features = ["json"] }
futures = "*"
tower-http = { version = "*", features = ["cors", "fs"] }
