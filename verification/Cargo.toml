[package]
name = "media_upload"
version = "0.1.0"
edition = "2021"
publish = false

[dependencies]
url = "2"
config = { version = "*", default-features = false, features = ["toml"] }
actix-web = { version = "4", default-features = false, features = ["macros"] }
actix-multipart = { version = "*", default-features = false }
actix-web-httpauth = "*"
actix-rt = "2"
futures = "0.3"
infer = "*"
rexiv2 = "*"
