[package]
name = "updater"
version = "0.1.0"
edition = "2021"
publish = false

[dependencies]
semver = "1"
regex = "1"
ureq = "2"
serde = { version = "1", features = ["derive"] }
serde_json = "1"
tempfile = "3"
zip = { version = "0.6", default-features = false, features = ["deflate"] }
flate2 = "1"
tar = "0.4"
log = "0.4"
simplelog = "0.12"
toml = "0.5"
