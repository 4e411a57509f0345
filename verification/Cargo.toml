[package]
name = "riv"
version = "0.1.0"
edition = "2021"
publish = false

[dependencies]
bcrypt = "=0.19.3"
serde = { version = "=1.0.229", features = ["derive"] }
toml = "=1.1.8"
thiserror = "=2.0.21"
anyhow = "=1.0.104"
tokio = { version = "=1.54.1", features = ["rt-multi-thread", "macros", "net"] }
sqlx = { version = "=0.9.0", default-features = false, features = ["postgres", "runtime-tokio"] }
reqwest = { version = "=0.12.28", default-features = false }
dotenvy = "=0.15.7"
async-trait = "=0.1.92"
axum = "=0.8.9"
axum_session = { version = "=0.22.1", default-features = false }
axum_session_auth = { version = "=0.22.0", default-features = false }
axum_session_sqlx = { version = "=0.12.0", default-features = false, features = ["postgres"] }
