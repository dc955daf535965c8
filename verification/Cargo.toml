[package]
name = "rustbot"
version = "0.1.0"
edition = "2021"
publish = false

[dependencies]
askama = "*"
axum = "0.8"
axum-cookie = "*"
regex = "1"
serde = { version = "1", features = ["derive"] }
tokio = { version = "1", features = ["macros", "rt-multi-thread", "net"] }
tower-http = { version = "*", features = ["fs"] }
