[package]
name = "web_pages"
version = "0.1.0"
edition = "2021"
publish = false

[dependencies]
actix-files = "0.5"
actix-http = "2"
actix-web = "3"
env_logger = "0.8"
sailfish = { version = "0.3", default-features = false }
