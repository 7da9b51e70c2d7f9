[package]
name = "zero2prod"
version = "0.1.0"
edition = "2021"
publish = false

[dependencies]
validator = "*"
rand = "*"
uuid = { version = "*", features = ["v4"] }
actix-web = { version = "*", default-features = false, features = ["macros"] }
tokio = { version = "*", features = ["macros", "rt-multi-thread"] }
reqwest = { version = "*", default-features = false, features = ["json"] }
serde = { version = "*", features = ["derive"] }
config = { version = "*", default-features = false, features = ["yaml"] }
secrecy = { version = "*", features = ["serde"] }
serde-aux = "*"
tracing = "*"
tracing-subscriber = { version = "*", features = ["env-filter"] }
tracing-actix-web = "*"
thiserror = "*"

[dev-dependencies]
fake = "*"
