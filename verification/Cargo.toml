[package]
name = "jostrid"
version = "0.1.0"
edition = "2021"
publish = false

[dependencies]
axum = "0.7"
chrono = { version = "0.4", features = ["serde"] }
dotenvy = "0.15"
hyper = "1"
jwt-authorizer = "0.14"
log = "0.4"
oauth2 = { version = "4.4", default-features = false, features = ["reqwest"] }
reqwest = { version = "0.11", default-features = false, features = ["json"] }
serde = { version = "1", features = ["derive"] }
serde_json = "1"
sqlx = { version = "0.7", default-features = false, features = ["postgres", "runtime-tokio", "chrono", "macros", "migrate"] }
thiserror = "1"
time = "0.3"
tokio = { version = "1", features = ["full"] }
tower-cookies = "0.10"
tower-sessions = "0.12"
tracing = "0.1"
tracing-subscriber = "0.3"
