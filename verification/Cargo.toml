[package]
name = "logic"
version = "0.1.0"
edition = "2021"
publish = false

[dependencies]
rand = "0.8"
subst = "0.3"
evalexpr = "11"
sha2 = "0.10"
serde = { version = "1", features = ["derive"] }
serde_json = "1"
axum = "0.7"
tokio = { version = "1", features = ["macros", "rt-multi-thread", "net"] }
tower-http = { version = "0.5", features = ["trace"] }
tracing = "0.1"
tracing-subscriber = { version = "0.3", features = ["env-filter"] }
dotenvy = "0.15"
diesel = { version = "2", features = ["postgres", "r2d2", "chrono", "serde_json", "uuid"] }
chrono = { version = "0.4", features = ["serde"] }
uuid = { version = "1", features = ["serde"] }
bcrypt = "0.15"
jsonwebtoken = "9"
clap = { version = "4", features = ["cargo"] }
reqwest = { version = "0.12", default-features = false }
walkdir = "2"
