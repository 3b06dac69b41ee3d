[package]
name = "subsonic_client"
version = "0.1.0"
edition = "2021"
publish = false

[dependencies]
anyhow = "1"
const_format = "0.2"
fastrand = "2"
md-5 = "0.10"
reqwest = { version = "0.11", default-features = false, features = ["blocking"] }
serde = { version = "1", features = ["derive"] }
serde-xml-rs = "0.6"
thiserror = "1"
xml-rs = "0.8"
