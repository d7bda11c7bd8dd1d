[package]
name = "github_codesearch"
version = "0.1.0"
edition = "2021"
publish = false

[dependencies]
md5 = "*"
urlencoding = "*"
serde = { version = "*", features = ["derive"] }
serde_json = "*"
reqwest = { version = "*", default-features = false, features = ["json"] }
reqwest-middleware = "*"
reqwest-retry = "*"
tokio = { version = "*", features = ["rt-multi-thread", "macros"] }
futures = "*"
