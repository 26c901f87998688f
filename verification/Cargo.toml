[package]
name = "whitman"
version = "0.1.0"
edition = "2021"
publish = false

[dependencies]
orgize = "0.9"
serde = { version = "1", features = ["derive"] }
serde_json = "1"
toml = "*"
handlebars = "*"
html-minifier = "*"
fs_extra = "*"
