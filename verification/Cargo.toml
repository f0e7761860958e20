[package]
name = "spotuify"
version = "0.1.0"
edition = "2021"
publish = false

[dependencies]
open = "*"
rspotify = { version = "*", default-features = false, features = ["client-ureq", "ureq-rustls-tls"] }
serde = { version = "1", features = ["derive"] }
serde_json = "1"
toml = "*"
tuirealm = "*"
url = "2"
xdg = "*"
