[package]
name = "queubious"
version = "0.1.0"
edition = "2021"
publish = false

[dependencies]
actix-cors = "*"
actix-files = "*"
actix-rt = "*"
actix-session = { version = "*", features = ["cookie-session"] }
actix-web = { version = "*", default-features = false, features = ["macros", "cookies"] }
base64 = "*"
chrono = "*"
deadpool-redis = "*"
dotenv = "*"
jsonwebtoken = "9"
listenfd = "*"
rdkafka = "*"
redis = "*"
serde = { version = "1", features = ["derive"] }
serde_derive = "1"
tera = { version = "1", default-features = false }
uuid = { version = "1", features = ["v4"] }
