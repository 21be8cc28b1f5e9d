[package]
name = "okapi_request"
version = "0.1.0"
edition = "2021"
publish = false

[dependencies]
rocket = { version = "0.5", default-features = false, features = ["json", "msgpack"] }
schemars = "0.8"
serde = "1"
tayvo_okapi = "*"

[dev-dependencies]
serde_json = "1"
