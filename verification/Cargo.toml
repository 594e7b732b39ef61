[package]
name = "felt"
version = "0.1.0"
edition = "2021"
publish = false

[dependencies]
image = { version = "0.22", default-features = false, features = ["jpeg", "png_codec"] }
rusttype = "0.8"
