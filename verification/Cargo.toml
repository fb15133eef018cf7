[package]
name = "authgate"
version = "0.1.0"
edition = "2021"
publish = false

[dependencies]
actix-web = { version = "=4.18.1", default-features = false, features = ["macros"] }
anyhow = "=1.0.104"
async-graphql = { version = "=7.2.1", default-features = false }
awc = { version = "=3.11.0", default-features = false }
dotenv = "=0.15.0"
env_logger = "=0.11.11"
jsonwebtoken = { version = "=10.4.0", default-features = false, features = ["rust_crypto"] }
log = "=0.4.34"
serde = { version = "=1.0.229", features = ["derive"] }
serde_json = "=1.0.154"
sqlx = { version = "=0.8.6", default-features = false, features = ["postgres", "runtime-tokio"] }
