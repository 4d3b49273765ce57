[package]
name = "inline_images"
version = "0.1.0"
edition = "2021"
publish = false

[dependencies]
base64 = "0.22"
clap = { version = "4", features = ["derive"] }
kuchikiki = "0.8"
mime = "0.3"
mime_guess = "2"
rayon = "1"
