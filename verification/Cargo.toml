[package]
name = "imagegen"
version = "0.1.0"
edition = "2021"
publish = false

[dependencies]
base64 = "=0.23.1"
serde = { version = "=1.0.229", features = ["derive"] }
reqwest = { version = "=0.13.5", default-features = false, features = ["blocking", "json"] }
actix-web = { version = "=4.15.0", default-features = false, features = ["macros"] }
dotenv = "=0.15.0"
