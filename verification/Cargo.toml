[package]
name = "portkeydrop"
version = "0.1.0"
edition = "2021"
publish = false

[dependencies]
log = "0.4"
serde = { version = "1", features = ["derive"] }
serde_json = "1"
prismer = "*"
wxdragon = "*"

[dev-dependencies]
tempfile = "3"
