[package]
name = "feed2podcast"
version = "0.1.0"
edition = "2021"
publish = false

[dependencies]
url = "*"
scraper = "*"
rss = "*"
serde_json = "*"
serde = { version = "*", features = ["derive"] }
poem = "*"
poem-openapi = "*"
reqwest = { version = "*", default-features = false, features = ["json"] }
tokio = { version = "*", features = ["macros", "rt-multi-thread", "sync"] }
clap = { version = "*", features = ["derive", "env"] }
eyre = "*"
askama = "*"
fs_extra = "*"
glob = "*"
tracing = "*"
tracing-subscriber = { version = "*", features = ["env-filter"] }
