[package]
name = "sphrosyne"
version = "0.1.0"
edition = "2021"
publish = false

[dependencies]
base64 = "*"
sha1 = "*"
qrcodegen = "*"
image = { version = "*", default-features = false, features = ["png"] }
tiny_http = "*"
tungstenite = "*"
serde = { version = "*", features = ["derive"] }
serde_json = "*"
build_html = "*"
gethostname = "*"
