[package]
name = "octerm"
version = "0.1.0"
edition = "2021"
publish = false

[dependencies]
pulldown-cmark = { version = "=0.9.6", default-features = false }
chrono = "=0.4.45"
crossterm = "=0.29.0"
futures = "=0.3.34"
octocrab = "=0.47.1"
reedline = "=0.52.1"
serde = { version = "=1.0.229", features = ["derive"] }
thiserror = "=2.0.21"
tokio = { version = "=1.54.1", features = ["macros", "rt-multi-thread"] }
