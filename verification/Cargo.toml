[package]
name = "epub_extract"
version = "0.1.0"
edition = "2021"
publish = false

[dependencies]
sha2 = "0.10"
roxmltree = "*"
epub = "*"
serde = { version = "1", features = ["derive"] }
serde_json = "1"

[dev-dependencies]
zip = "*"
