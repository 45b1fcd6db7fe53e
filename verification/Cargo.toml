[package]
name = "nsfw_bot"
version = "0.1.0"
edition = "2021"
publish = false

[dependencies]
serenity = { version = "0.10", features = ["unstable_discord_api"] }
tokio = { version = "1", features = ["macros", "rt-multi-thread", "time"] }
serde = { version = "1", features = ["derive"] }
serde_json = "1"
toml = "0.5"
reqwest = { version = "0.11", features = ["json"] }
dotenv = "0.15"

[dev-dependencies]
regex = "1"
