[package]
name = "word_counter"
version = "0.1.0"
edition = "2021"
publish = false

[dependencies]
zip = { version = "=8.6.0", default-features = false, features = ["deflate"] }
quick-xml = "=0.31.0"
pdf-extract = "=0.12.1"
eframe = { version = "*", default-features = false, features = ["glow", "x11"] }
