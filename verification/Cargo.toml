[package]
name = "hatchery"
version = "0.1.0"
edition = "2021"
publish = false

[dependencies]
sha1 = "0.10"
rand = "0.8"
rocket = "0.5"
rocket_db_pools = { version = "0.1", features = ["mongodb"] }
mongodb = "2"
reqwest = { version = "0.11", default-features = false, features = ["multipart", "stream"] }
tokio = { version = "1", features = ["fs"] }
serde = { version = "1", features = ["derive"] }
dotenv = "0.15"
