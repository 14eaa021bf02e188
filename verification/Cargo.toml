[package]
name = "baidupan_sdk"
version = "0.1.0"
edition = "2021"
publish = false

[dependencies]
md5 = "*"
reqwest = { version = "*", default-features = false, features = ["json", "multipart"] }
serde = { version = "*", features = ["derive"] }
serde_json = "*"
thiserror = "*"
tokio = { version = "*", features = ["rt", "rt-multi-thread", "macros", "fs", "io-util"] }
url = "*"
urlencoding = "*"
