[package]
name = "reservations"
version = "0.1.0"
edition = "2021"
publish = false

[dependencies]
argon2 = "=0.5.3"
axum = "=0.7.9"
axum-extra = { version = "=0.9.6", features = ["query"] }
base32 = "=0.5.1"
bigdecimal = { version = "=0.4.11", features = ["serde"] }
chrono = { version = "=0.4.45", features = ["serde"] }
diesel = { version = "=2.3.14", features = ["postgres", "r2d2", "chrono", "numeric", "64-column-tables"] }
dotenv = "=0.15.0"
jsonwebtoken = "=9.3.1"
lapin = "=2.5.5"
rand = "=0.8.8"
serde = { version = "=1.0.229", features = ["derive"] }
serde_json = "=1.0.154"
tokio = { version = "=1.54.1", features = ["full"] }
totp-rs = "=5.7.2"
tower = "=0.4.13"
tower-http = { version = "=0.5.2", features = ["cors"] }
