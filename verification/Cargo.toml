[package]
name = "zip_container"
version = "0.1.0"
edition = "2021"
publish = false

[dependencies]
zip = { version = "*", default-features = false, features = ["deflate"] }
reqwest = { version = "*", default-features = false, features = ["blocking"] }
tokio = { version = "*", default-features = false, features = ["rt", "fs", "io-util"] }
serde = { version = "*", features = ["derive"] }
