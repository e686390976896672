[package]
name = "nako"
version = "0.1.0"
edition = "2021"
publish = false

[dependencies]
rsa = "0.9"
rand = "0.8"
base64 = "*"
md5 = "*"
sha1 = "*"
hex = "*"
captcha = "*"
