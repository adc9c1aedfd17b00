[package]
name = "chopped"
version = "0.1.0"
edition = "2021"
publish = false

[dependencies]
thiserror = "*"
gloo-net = { version = "*", default-features = false, features = ["http"] }
glamx = "*"
hecs = "*"
rusttype = "*"
uuid = "*"
web-sys = { version = "*", features = ["console"] }
