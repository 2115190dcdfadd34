[package]
name = "axumbooru"
version = "0.1.0"
edition = "2021"
publish = false

[dependencies]
ring = "*"
hmac = "*"
md-5 = "*"
mime_guess2 = "*"
dashmap = "*"
data-encoding = "*"
serde = { version = "*", features = ["derive"] }
toml = "*"
