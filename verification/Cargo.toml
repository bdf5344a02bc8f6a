[package]
name = "auth_core"
version = "0.1.0"
edition = "2021"
publish = false

[dependencies]
argon2 = "=0.6.0"
password-hash = "=0.6.1"
uuid = { version = "=1.27.0", features = ["v4"] }
chrono = "=0.4.45"
hmac = "=0.13.0"
sha2 = "=0.11.0"
actix-web = { version = "=4.15.0", default-features = false }
sea-orm = { version = "=2.0.4", default-features = false, features = ["macros", "with-uuid", "with-chrono"] }
rdkafka = "=0.39.0"
