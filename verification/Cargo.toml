[package]
name = "libaoc"
version = "0.1.0"
edition = "2021"
publish = false

[dependencies]
html-escape = "*"
scraper = "*"
dirs = "*"
reqwest = { version = "0.12", default-features = false, features = ["blocking"] }
