[package]
name = "auth_core"
version = "0.1.0"
edition = "2021"
publish = false

[dependencies]
actix-cors = "0.6"
actix-web = "4"
argon2 = { version = "0.5", features = ["std"] }
chrono = "0.4"
dotenv = "0.15"
env_logger = "0.10"
futures-util = "0.3"
jsonwebtoken = "9"
log = "0.4"
mongodb = "2"
serde = { version = "1", features = ["derive"] }
serde_json = "1"
utoipa = { version = "3", features = ["actix_extras"] }
utoipa-swagger-ui = { version = "3", features = ["actix-web"] }
