[package]
name = "modsync"
version = "0.1.0"
edition = "2021"
publish = false

[dependencies]
zip = { version = "=8.6.0", default-features = false, features = ["deflate"] }
anyhow = "=1.0.104"
async-recursion = "=1.2.0"
bytes = "=1.12.1"
dialoguer = "=0.12.0"
reqwest = { version = "=0.13.5", default-features = false, features = ["json", "form"] }
serde = { version = "=1.0.229", features = ["derive"] }
serde_json = "=1.0.151"
tokio = { version = "=1.53.2", features = ["macros", "rt-multi-thread", "time"] }
toml = "=1.1.7"
