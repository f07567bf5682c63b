[package]
name = "automattermostatus"
version = "0.1.0"
edition = "2021"
publish = false

[dependencies]
ureq = { version = "2", default-features = false }
serde_json = "1"
chrono = "0.4"
quick-xml = "0.37"

[dev-dependencies]
httpmock = "0.7"
