[package]
name = "polylink"
version = "0.1.0"
edition = "2021"
publish = false

[dependencies]
rand = "*"
regex = "*"
url = "*"
serde = { version = "*", features = ["derive"] }
serde_json = "*"
uuid = { version = "*", features = ["serde"] }
poem = "*"
poem-openapi = { version = "*", features = ["swagger-ui", "uuid"] }
sqlx = { version = "*", features = ["runtime-tokio", "postgres", "uuid"] }
tokio = { version = "*", features = ["macros", "rt-multi-thread"] }
tracing = "*"
tracing-subscriber = "*"
