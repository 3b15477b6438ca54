[package]
name = "forum_persona"
version = "0.1.0"
edition = "2021"
publish = false

[dependencies]
html2md = "*"
rand = "0.8"
reqwest = { version = "*", default-features = false, features = ["json"] }
tokio = { version = "1", features = ["macros", "rt-multi-thread"] }
serde_json = "*"
dotenvy = "*"
structopt = "*"
