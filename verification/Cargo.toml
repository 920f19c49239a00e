[package]
name = "mattermost_structs"
version = "0.1.0"
edition = "2021"
publish = false

[dependencies]
chrono = "*"
chrono-tz = "*"
serde = { version = "*", features = ["derive"] }
serde_json = "*"
serde_yaml = "*"
structopt = "*"
url = "*"
ws = "*"
reqwest = { version = "*", default-features = false, features = ["blocking", "json"] }
log = "*"
env_logger = "*"
openssl-probe = "*"
