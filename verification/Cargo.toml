[package]
name = "data_backend"
version = "0.1.0"
edition = "2021"
publish = false

[dependencies]
actix-web = { version = "4", default-features = false, features = ["cookies", "macros"] }
actix-identity = "0.8"
actix-session = { version = "0.10", default-features = false, features = ["cookie-session"] }
actix-files = "0.6"
actix-rt = "2"
askama = "=0.8.0"
mysql = "=16.1.0"
serde = { version = "=1.0.229", features = ["derive"] }
log = "=0.4.35"
env_logger = "=0.6.2"
rpassword = "=4.0.5"
