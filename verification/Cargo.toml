[package]
name = "lagoinha"
version = "0.2.0"
edition = "2021"
publish = false

[dependencies]
async-std = "1"
futures = "0.3"
isahc = "1"
serde = { version = "1", features = ["derive"] }
serde_json = "1"
serde-xml-rs = "*"
