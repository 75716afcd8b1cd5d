[package]
name = "paas_auth"
version = "0.1.0"
edition = "2021"
publish = false

[dependencies]
serde_json = "1"
oauth2 = { version = "4", default-features = false }
serde = { version = "1", features = ["derive"] }
actix-web = "4"
actix-session = { version = "*", features = ["cookie-session"] }
reqwest = { version = "*", default-features = false, features = ["json"] }
