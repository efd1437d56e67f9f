[package]
name = "ovh"
version = "0.1.0"
edition = "2021"
publish = false

[dependencies]
configparser = "3"
futures = "0.3"
reqwest = { version = "0.11", default-features = false, features = ["json"] }
serde = { version = "1", features = ["derive"] }
serde_json = "1"
sha1 = { version = "0.6", features = ["std"] }
thiserror = "1"
