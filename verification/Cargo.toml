[package]
name = "account_link"
version = "0.1.0"
edition = "2021"
publish = false

[dependencies]
uuid = { version = "*", features = ["v4"] }
actix-web = "*"
actix-cors = "*"
actix-files = "*"
askama = "*"
native-tls = "*"
postgres-native-tls = "*"
serde = { version = "*", features = ["derive"] }
serenity = "0.11"
tokio = { version = "*", features = ["macros", "rt-multi-thread"] }
tokio-postgres = "*"
toml = "*"
