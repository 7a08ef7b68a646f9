[package]
name = "newsletter"
version = "0.1.0"
edition = "2021"
publish = false

[dependencies]
base64 = "0.22"
actix-web = { version = "4", default-features = false, features = ["macros"] }
reqwest = { version = "0.12", default-features = false }
serde = { version = "1", features = ["derive"] }
uuid = { version = "1", features = ["v4"] }
