[package]
name = "slack-paste"
version = "0.1.0"
edition = "2021"
publish = false

[dependencies]
clap = "2"
directories = "3"
read_input = "0.8"
serde = { version = "1", features = ["derive"] }
slack-morphism = "0.2"
slack-morphism-models = "0.2"
tokio = { version = "0.2", features = ["full"] }
toml = "0.5"
