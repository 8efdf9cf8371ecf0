[package]
name = "sbh"
version = "0.1.0"
edition = "2021"
publish = false

[dependencies]
chrono = "*"
clap = { version = "*", features = ["derive"] }
dirs = "*"
env_logger = "*"
globwalk = "*"
log = "*"
rand = "*"
sqlx = { version = "*", default-features = false, features = ["runtime-tokio", "sqlite", "chrono"] }
tokio = { version = "*", features = ["macros", "rt-multi-thread"] }
whoami = "*"
wsl = "*"

[dev-dependencies]
serde_json = "*"
