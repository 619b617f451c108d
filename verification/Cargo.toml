[package]
name = "character_records"
version = "0.1.0"
edition = "2021"
publish = false

[dependencies]
actix-cors = "0.7"
actix-web = { version = "4", default-features = false, features = ["macros"] }
dotenv = "0.15"
serde = { version = "1", features = ["derive"] }
sqlx = { version = "0.7", default-features = false, features = ["mysql", "runtime-tokio"] }
tokio = { version = "1", features = ["rt-multi-thread", "macros"] }
