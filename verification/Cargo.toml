[package]
name = "coisando_coisas"
version = "0.1.0"
edition = "2021"
publish = false

[dependencies]
actix-identity = "0.8"
actix-multipart = "0.7"
actix-session = { version = "0.10", features = ["cookie-session"] }
actix-web = "4"
argon2 = "0.5"
aws-config = { version = "1", default-features = false, features = ["behavior-version-latest", "rt-tokio"] }
aws-sdk-s3 = { version = "1", default-features = false, features = ["behavior-version-latest", "rt-tokio"] }
diesel = { version = "2", features = ["postgres", "r2d2", "uuid"] }
dotenvy = "0.15"
env_logger = "0.11"
log = "0.4"
maud = { version = "0.26", features = ["actix-web"] }
serde = { version = "1", features = ["derive"] }
uuid = { version = "1", features = ["v4", "serde"] }
