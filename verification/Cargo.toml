[package]
name = "registration"
version = "0.1.0"
edition = "2021"
publish = false

[dependencies]
rand = "0.8"
lettre = { version = "0.11", default-features = false, features = ["builder", "smtp-transport"] }
axum = "0.7"
tokio = { version = "1", features = ["macros", "rt-multi-thread", "net"] }
serde = { version = "1", features = ["derive"] }
sqlx = { version = "0.8", default-features = false, features = ["postgres", "runtime-tokio"] }
tower-http = { version = "0.6", features = ["cors"] }
dotenvy = "0.15"
