[package]
name = "rs_cookie_scanner"
version = "0.1.0"
edition = "2021"
publish = false

[dependencies]
cookie = "*"
clap = { version = "*", features = ["derive"] }
reqwest = { version = "*", default-features = false }
serde = { version = "*", features = ["derive"] }
serde_json = "*"
thiserror = "*"
tokio = { version = "*", features = ["macros", "rt-multi-thread"] }
url = "*"
