[package]
name = "rust_box"
version = "0.1.0"
edition = "2021"
publish = false

[dependencies]
audiotags = "0.5"
axum = "0.8"
axum-macros = "0.5"
futures = "0.3"
rodio = "0.20"
serde = { version = "1", features = ["derive"] }
serde_json = "1"
tokio = { version = "1", features = ["macros", "net", "rt-multi-thread", "sync"] }
tower-http = { version = "0.6", features = ["fs"] }
