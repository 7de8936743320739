[package]
name = "pfg"
version = "0.1.0"
edition = "2021"
publish = false

[dependencies]
rss = "*"
xml-rs = "*"
serde = { version = "*", features = ["derive"] }
serde_yaml = "*"
color-eyre = "*"
hypertext = "*"
pulldown-cmark = "*"
