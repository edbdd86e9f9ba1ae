[package]
name = "axlauncher"
version = "0.1.0"
edition = "2021"
publish = false

[dependencies]
confy = "*"
flate2 = "*"
reqwest = { version = "*", default-features = false, features = ["blocking", "rustls-tls"] }
serde = { version = "*", features = ["derive"] }
serde_json = "*"
tar = "*"
