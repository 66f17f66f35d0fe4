[package]
name = "redd_do_core"
version = "0.1.0"
edition = "2021"
publish = false

[dependencies]
urlencoding = "2"
serde_json = "1"
serde = { version = "1", features = ["derive"] }
url = "2"
log = "0.4"
open = "5"
dotenvy = "0.15"
tiny_http = "0.12"
tokio = { version = "1", features = ["rt", "rt-multi-thread"] }
reqwest = { version = "0.12", features = ["json"] }
