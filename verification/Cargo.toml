[package]
name = "brlapi_server"
version = "0.1.0"
edition = "2021"

[dependencies]
iconv-native = "*"
louis = "*"
tokio = { version = "*", features = ["full"] }
