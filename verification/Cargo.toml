[package]
name = "termcore"
version = "0.1.0"
edition = "2021"
publish = false

[dependencies]
base64 = "*"
tokio = { version = "*", features = ["full"] }
libc = "*"
termios = "*"
anyhow = "*"
