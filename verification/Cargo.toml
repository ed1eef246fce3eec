[package]
name = "time_signal"
version = "0.1.0"
edition = "2021"
publish = false

[dependencies]
anyhow = "*"
chrono = "*"
clap = { version = "*", features = ["derive"] }
cron_tab = "*"
indicatif = "*"
reqwest = { version = "*", default-features = false, features = ["blocking", "json"] }
rodio = "*"
semver = "*"
serde = { version = "*", features = ["derive"] }
serde_json = "*"
tray-item = "*"
url = "*"
user-idle = "*"
zip = { version = "*", default-features = false, features = ["deflate"] }
