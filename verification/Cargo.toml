[package]
name = "updater"
version = "0.1.0"
edition = "2021"
publish = false

[dependencies]
bsdiff = "*"
bzip2 = "*"
sha2 = "*"
serde = { version = "*", features = ["derive"] }
clap = { version = "*", features = ["derive"] }
reqwest = { version = "*", default-features = false, features = ["blocking", "json", "rustls-tls"] }
self-replace = "*"
