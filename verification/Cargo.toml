[package]
name = "sitegen"
version = "0.1.0"
edition = "2021"
publish = false

[dependencies]
toml = "*"
chrono = "*"
pulldown-cmark = "*"
emojicons = "*"
handlebars = "*"
walkdir = "*"
serde = "*"
serde_derive = "*"

[dev-dependencies]
serde_json = "*"
rss = "*"
