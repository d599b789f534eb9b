[package]
name = "clarigggz"
version = "0.2.0"
edition = "2021"
publish = false

[dependencies]
rhai = { version = "1", features = ["sync", "f32_float"] }
chrono = "0.4"
serde = { version = "1", features = ["derive"] }
serde_json = "1"
axum = "0.7"
tokio = { version = "1", features = ["rt-multi-thread", "net", "sync", "macros"] }
clap = { version = "4", features = ["derive"] }
colored = "2"
comfy-table = "7"
indicatif = "0.17"
reqwest = { version = "0.12", default-features = false, features = ["blocking", "json"] }
