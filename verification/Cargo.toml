[package]
name = "ws_session"
version = "0.1.0"
edition = "2021"
publish = false

[dependencies]
actix-http = { version = "3", default-features = false, features = ["ws"] }
bytes = "1"
thiserror = "1"
tokio = { version = "1", default-features = false, features = ["sync", "rt", "rt-multi-thread"] }
