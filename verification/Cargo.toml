[package]
name = "rasa_nlu_api"
version = "0.0.1"
edition = "2021"
publish = false

[dependencies]
actix-web = { version = "0.7", default-features = false }
clap = "2"
env_logger = "0.5"
futures = "0.1"
serde = "1"
serde_derive = "1"
serde_json = "1"
