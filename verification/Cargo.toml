[package]
name = "mongo_crud"
version = "0.1.0"
edition = "2021"
publish = false

[dependencies]
bson = "=0.14.1"
chrono = "=0.4.45"
mongodb = "=0.9.2"
regex = "=1.3.9"
serde = { version = "=1.0.229", features = ["derive"] }
