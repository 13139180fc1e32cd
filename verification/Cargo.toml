[package]
name = "slideforge-brand"
version = "0.1.0"
edition = "2021"
publish = false

[dependencies]
quick-xml = "0.37"
zip = { version = "2", default-features = false, features = ["deflate"] }
toml = "0.8"
serde = { version = "1", features = ["derive"] }
dirs = "5"
thiserror = "2"
