[package]
name = "inert"
version = "0.1.0"
edition = "2021"
publish = false

[dependencies]
actix-files = "0.6"
actix-web = { version = "4", default-features = false, features = ["macros"] }
async-std = "1"
futures = "0.3"
pulldown-cmark = "*"
reqwest = { version = "0.12", default-features = false, features = ["rustls-tls"] }
serde = { version = "1", features = ["derive"] }
serde_json = "1"
termion = "*"
tokio = { version = "1", features = ["macros", "rt-multi-thread"] }
