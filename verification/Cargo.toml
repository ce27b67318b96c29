[package]
name = "gauth_generator"
version = "0.1.0"
edition = "2021"
publish = false

[dependencies]
google-authenticator = { version = "=0.4.2", features = ["with-qrcode"] }
structopt = "=0.3.26"
quicli = "=0.4.0"
anyhow = "=1.0.104"

[dev-dependencies]
base32 = "=0.4.0"
percent-encoding = "=2.3.2"
