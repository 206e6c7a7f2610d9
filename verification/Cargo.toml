[package]
name = "quillbert"
version = "0.1.0"
edition = "2021"
publish = false

[dependencies]
llm = { version = "*", default-features = false, features = ["google"] }
serde = { version = "*", features = ["derive"] }
serde_json = "*"
tokio = { version = "*", features = ["sync", "rt"] }
