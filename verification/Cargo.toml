[package]
name = "addon_catalog"
version = "0.1.0"
edition = "2021"
publish = false

[dependencies]
regex = "1"
serde = "1"
serde_json = "1"
futures = "0.3"
structopt = "0.3"
isahc = { version = "1", features = ["json"] }
