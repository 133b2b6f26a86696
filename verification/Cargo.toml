[package]
name = "opendeck_teams_for_linux"
version = "0.1.0"
edition = "2021"
publish = false

[dependencies]
base64 = "0.22"
openaction = "*"
rumqttc = { version = "0.25", default-features = false }
tokio = { version = "1", features = ["rt-multi-thread", "macros", "sync", "time"] }
serde = { version = "1", features = ["derive"] }
serde_json = "1"
toml = "*"
log = "0.4"
simplelog = "0.12"
