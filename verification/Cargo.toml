[package]
name = "fuzzy_nav"
version = "0.1.0"
edition = "2021"
publish = false

[dependencies]
anyhow = "*"
cursive = { version = "*", default-features = false, features = ["crossterm-backend"] }
fuzzy-matcher = "*"
unicode-segmentation = "*"
unicode-width = "*"
