[package]
name = "board_game"
version = "0.1.0"
edition = "2021"
publish = false

[dependencies]
itsdangerous = "0.4"
rand = "0.8"
redis = { version = "0.23", features = ["tokio-comp"] }
actix-web = "4"
actix-cors = "0.6"
tokio = { version = "1", features = ["macros", "rt-multi-thread", "sync"] }
serde = "1"
serde_derive = "1"
serde_json = "1"
