[package]
name = "content_archiver"
version = "0.1.0"
edition = "2021"
publish = false

[dependencies]
chrono = "0.4"
reqwest = { version = "0.11", features = ["stream"] }
rocket = { version = "0.5", features = ["json"] }
rusoto_core = "0.48"
rusoto_s3 = "0.48"
url = "2"
