[package]
name = "voicefade"
version = "0.1.0"
edition = "2021"
publish = false

[dependencies]
serenity = { version = "0.11", default-features = false, features = ["client", "gateway", "model", "http", "cache", "framework", "standard_framework", "voice", "rustls_backend"] }
songbird = "0.3"
tokio = { version = "1", features = ["macros", "rt-multi-thread"] }
