[package]
name = "search_page"
version = "0.1.0"
edition = "2021"
publish = false

[dependencies]
axum = "=0.8.9"
tera = "=1.20.1"

[dev-dependencies]
serde = "=1.0.229"
