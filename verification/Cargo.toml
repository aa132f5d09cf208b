[package]
name = "pokemon_data"
version = "0.1.0"
edition = "2021"
publish = false

[dependencies]
svix-ksuid = "*"
Inflector = "*"
serde = { version = "*", features = ["derive"] }
serde_json = "*"
sqlx = { version = "*", default-features = false, features = ["mysql", "runtime-tokio", "tls-rustls"] }
tokio = { version = "*", features = ["macros", "rt-multi-thread"] }
