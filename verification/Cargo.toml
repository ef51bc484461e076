[package]
name = "route_handlers"
version = "0.1.0"
edition = "2021"
publish = false

[dependencies]
rocket = { version = "=0.5.1", features = ["json", "secrets"] }
serde = { version = "=1.0.229", features = ["derive"] }
serde_derive = "=1.0.229"
