[package]
name = "tinychat"
version = "0.1.0"
edition = "2021"
publish = false

[dependencies]
actix = "0.13"
actix-cors = "0.6"
actix-rt = "2"
actix-web = "4"
actix-web-actors = "4"
chrono = { version = "0.4", features = ["serde"] }
diesel = { version = "1.4", features = ["postgres", "r2d2", "uuidv07", "chrono", "serde_json"] }
diesel_migrations = "1.4"
dotenv = "0.15"
futures = "0.3"
http = "0.2"
jsonwebtoken = "8"
log = "0.4"
oauth2 = "4"
rand = "0.8"
reqwest = { version = "0.11", features = ["json"] }
rust-argon2 = "1"
serde = { version = "1", features = ["derive"] }
serde_json = "1"
sha1 = "0.10"
url = "2"
uuid = { version = "0.8", features = ["serde", "v4"] }
