[package]
name = "z3_app"
version = "0.1.0"
edition = "2021"
publish = false

[dependencies]
askama = "=0.16.1"
async-trait = "=0.1.92"
axum = { version = "=0.8.9", features = ["macros"] }
axum-login = "=0.18.0"
chrono = { version = "=0.4.45", features = ["serde"] }
diesel = { version = "=2.3.14", features = ["postgres", "r2d2", "chrono"] }
password-auth = "=1.0.0"
serde = { version = "=1.0.229", features = ["derive"] }
thiserror = "=2.0.21"
tokio = { version = "=1.54.1", features = ["full"] }
tower-http = { version = "=0.7.1", features = ["compression-full", "fs"] }
tower-sessions = { version = "=0.14.0", features = ["memory-store"] }
