[package]
name = "antex"
version = "0.1.0"
edition = "2021"
publish = false

[dependencies]
unicode-width = "=0.2.3"
url = "=2.5.8"
shlex = "=1.3.0"
urlencoding = "=2.1.3"
crossterm = "=0.27.0"
serde = { version = "=1.0.229", features = ["derive"] }
serde_json = "=1.0.154"
base64 = "=0.22.1"
sha2 = "=0.10.9"
rand = "=0.9.5"
diffy = "=0.4.2"
libc = "=0.2.191"
