[package]
name = "launcher"
version = "0.1.0"
edition = "2021"
publish = false

[dependencies]
semver = "1"
chrono = { version = "0.4", default-features = false, features = ["std"] }
serde = { version = "1", features = ["derive"] }
reqwest = { version = "0.12", default-features = false, features = ["blocking", "json", "stream", "rustls-tls"] }
tokio = { version = "1", features = ["rt-multi-thread"] }
futures-util = "0.3"
eframe = { version = "0.29", default-features = false, features = ["default_fonts", "glow", "x11"] }
