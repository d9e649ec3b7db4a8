[package]
name = "easy_captcha"
version = "0.1.0"
edition = "2021"
publish = false

[dependencies]
image = "0.25"
imageproc = "0.25"
rand = "0.8"
base64 = "0.22"
actix-web = "4"
serde = { version = "1", features = ["derive"] }
serde_json = "1"
clap = { version = "4", features = ["derive"] }
