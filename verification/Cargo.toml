[package]
name = "yay_crm"
version = "0.1.0"
edition = "2021"
publish = false

[dependencies]
uuid = { version = "=1.27.0", features = ["v4"] }
rand = "=0.10.3"
validator = "=0.21.0"
argon2 = "=0.6.0"
chrono = "=0.4.45"
serde = { version = "=1.0.229", features = ["derive"] }
serde_json = "=1.0.151"
actix-web = "=4.15.0"
actix-cors = "=0.7.2"
handlebars = "=6.4.4"
log = "=0.4.34"
surrealdb = { version = "*", default-features = false, features = ["protocol-ws"] }
