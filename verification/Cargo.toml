[package]
name = "gritty"
version = "0.1.0"
edition = "2021"
publish = false

[dependencies]
keyring = { version = "=3.6.3", features = ["linux-native"] }
urlencoding = "=2.1.3"
tokio = { version = "=1.53.2", features = ["full"] }
serde = { version = "=1.0.229", features = ["derive"] }
serde_json = "=1.0.151"
toml = "=1.1.7"
chrono = "=0.4.45"
clap = { version = "=4.6.7", features = ["derive"] }
clap_complete = "=4.6.11"
ansi_term = "=0.12.1"
rpassword = "=7.5.4"
human-panic = "=2.0.8"
async-trait = "=0.1.92"
octocrab = "=0.47.1"
gitlab = "=0.1904.0"
gitea-sdk = "=0.6.3"
