[package]
name = "av_designer"
version = "0.1.0"
edition = "2021"
publish = false

[dependencies]
csv = "1"
chrono = "0.4"
calamine = "*"
serde = { version = "1", features = ["derive"] }
serde_json = "1"
thiserror = "*"
