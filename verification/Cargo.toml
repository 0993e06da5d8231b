[package]
name = "rusty"
version = "0.1.0"
edition = "2021"
publish = false

[dependencies]
actix-cors = "0.5"
actix-web = { version = "3", default-features = false }
dotenv = "0.15"
log = "0.4"
log4rs = "1"
serde = { version = "1", features = ["derive"] }
serde_json = "1"
uuid = { version = "0.8", features = ["v4"] }
