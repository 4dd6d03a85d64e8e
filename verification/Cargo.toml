[package]
name = "msedgedriver_tool"
version = "0.1.0"
edition = "2021"
publish = false

[dependencies]
ureq = "3"
zip = { version = "*", default-features = false, features = ["deflate"] }
