[package]
name = "valhalla_client"
version = "0.1.0"
edition = "2021"
publish = false

[dependencies]
chrono = { version = "0.4", features = ["serde"] }
geo-types = "0.7"
gpx = "0.10"
log = "0.4"
reqwest = { version = "0.12", default-features = false, features = ["json"] }
semver = { version = "1", features = ["serde"] }
serde = { version = "1", features = ["derive"] }
serde_json = "1"
serde_repr = "0.1"
serde_with = "3"
tokio = { version = "1", features = ["rt", "net"] }
url = "2"
