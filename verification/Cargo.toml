[package]
name = "judge_dispatch"
version = "0.1.0"
edition = "2021"
publish = false

[dependencies]
md-5 = "=0.11.0"
digest = "=0.11.3"
hex = "=0.4.3"
uuid = { version = "=1.29.0", features = ["v4", "serde"] }
serde = { version = "=1.0.229", features = ["derive"] }
serde_json = "=1.0.154"
chrono = { version = "=0.4.45", features = ["serde"] }
log = "=0.4.34"
thiserror = "=2.0.21"
actix = "*"
actix-web = "*"
awc = "*"
diesel = { version = "*", features = ["postgres", "r2d2", "uuid", "chrono"] }
dotenv = "*"
env_logger = "*"
structopt = "*"
