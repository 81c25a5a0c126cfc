[package]
name = "update-informer"
version = "0.1.0"
edition = "2021"
publish = false

[dependencies]
semver = "1"
serde = { version = "1", features = ["derive"] }
ureq = { version = "3", default-features = false, features = ["json"] }
reqwest = { version = "0.12", default-features = false, features = ["blocking", "json"] }
