[package]
name = "log_alert"
version = "0.1.0"
edition = "2021"
publish = false

[dependencies]
chrono = "0.4"
inotify = "0.9"
lettre = "0.9"
lettre_email = "0.9"
serde = { version = "1", features = ["derive"] }
serde_yaml = "0.9"
