[package]
name = "sage"
version = "0.1.0"
edition = "2021"
publish = false

[dependencies]
diesel = { version = "1.4", features = ["postgres"] }
dotenv = "0.15"
regex = "1"
serde = "1"
serde_json = "1"
uuid = { version = "0.8", features = ["v4"] }
