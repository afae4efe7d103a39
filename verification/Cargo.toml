[package]
name = "reqwest_actix_stream"
version = "0.1.0"
edition = "2021"
publish = false

[dependencies]
actix-web = { version = "4", default-features = false }
actix-http = { version = "3", default-features = false, features = ["http2"] }
reqwest = { version = "0.12", default-features = false }
futures = "0.3"

[dev-dependencies]
h2 = "0.3"
